use vstd::prelude::*;

verus! {

/// The persistent state of a plugin's script sandbox: the scripts whose top-level
/// declarations it retains, in the order they were added.
#[derive(Debug)]
pub struct Js {
    scripts: Vec<String>,
}

/// A request to evaluate `expression` in a sandbox: first each of `scripts` is run in
/// order for its declarations, then each binding is made visible under its name.
#[derive(Debug)]
pub struct Evaluation {
    pub scripts: Vec<String>,
    pub bindings: Vec<(String, String)>,
    pub expression: String,
}

pub open spec fn views_of(v: Seq<String>) -> Seq<Seq<char>> {
    v.map_values(|s: String| s@)
}

impl View for Js {
    type V = Seq<Seq<char>>;

    closed spec fn view(&self) -> Seq<Seq<char>> {
        views_of(self.scripts@)
    }
}

impl Js {
    /// A sandbox that retains nothing yet.
    pub fn new() -> (r: Js)
        ensures
            r@ == Seq::<Seq<char>>::empty(),
    {
        let r = Js { scripts: Vec::new() };
        assert(r@ =~= Seq::<Seq<char>>::empty());
        r
    }

    /// Retains `script`, after every script added before it.
    #[allow(non_snake_case)]
    pub fn addScript(&mut self, script: &str)
        ensures
            final(self)@ == old(self)@.push(script@),
    {
        self.scripts.push(script.to_owned());
        assert(self@ =~= old(self)@.push(script@));
    }

    /// The evaluation of `func` after `script`, with `params` bound as variables, in
    /// this sandbox: the retained scripts come first, in the order they were added.
    pub fn execute(&self, script: &str, func: &str, params: Vec<(String, String)>) -> (r: Evaluation)
        ensures
            views_of(r.scripts@) == self@.push(script@),
            r.bindings@ == params@,
            r.expression@ == func@,
    {
        let mut scripts: Vec<String> = Vec::new();
        let mut i: usize = 0;
        while i < self.scripts.len()
            invariant
                i <= self.scripts@.len(),
                scripts@.len() == i,
                forall|j: int| 0 <= j < i ==> #[trigger] scripts@[j]@ == self.scripts@[j]@,
            decreases self.scripts@.len() - i,
        {
            scripts.push(self.scripts[i].clone());
            i = i + 1;
        }
        scripts.push(script.to_owned());
        assert(views_of(scripts@) =~= self@.push(script@));
        Evaluation { scripts, bindings: params, expression: func.to_owned() }
    }
}

} // verus!
