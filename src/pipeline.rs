use vstd::prelude::*;
use crate::errors::EngineError;
use crate::js::{Evaluation, views_of};
use crate::model::{Book, Plugin};
use crate::text::chars_of;

verus! {

/// What the host must do next in an extraction run.
#[derive(Debug)]
pub enum Action {
    /// Fetch the body at this URL with a GET request, and report it.
    Fetch(String),
    /// Evaluate this in the plugin's sandbox, and report the records it yields.
    Evaluate(Evaluation),
    /// The run is over, with these records or this error.
    Finish(Result<Vec<Book>, EngineError>),
}

/// What the host reports after performing an action.
#[derive(Debug)]
pub enum Outcome {
    Fetched(String),
    FetchFailed,
    Evaluated(Vec<Book>),
    EvaluationFailed,
}

/// Where an extraction run stands.
#[derive(Debug, Clone, Copy, PartialEq, Eq, Structural)]
pub enum Stage {
    /// Waiting for the primary content.
    Primary,
    /// Waiting for the body of the dependency script at this index.
    Dependency(usize),
    /// Waiting for the parse routine's records.
    Parsing,
    /// Finished.
    Done,
}

/// An extraction run of one plugin: its stage and the primary content fetched.
#[derive(Debug)]
pub struct HotsRun {
    pub stage: Stage,
    pub content: String,
}

/// Whether a request method names POST, in any letter case.
pub open spec fn is_post(m: Seq<char>) -> bool {
    &&& m.len() == 4
    &&& (m[0] == 'p' || m[0] == 'P')
    &&& (m[1] == 'o' || m[1] == 'O')
    &&& (m[2] == 's' || m[2] == 'S')
    &&& (m[3] == 't' || m[3] == 'T')
}

/// The request that runs a plugin's parse routine on `content`: the retained scripts,
/// then the manifest's code; the routine is the `parse` expression, or the code
/// itself where there is none; the content is bound as `content`.
pub open spec fn parse_request(p: &Plugin, content: Seq<char>, e: &Evaluation) -> bool {
    let has_parse = p.hots.parse@.len() > 0;
    &&& views_of(e.scripts@) == p.js@.push(if has_parse { p.code@ } else { Seq::empty() })
    &&& e.expression@ == (if has_parse { p.hots.parse@ } else { p.code@ })
    &&& e.bindings@.len() == 1
    &&& e.bindings@[0].0@ == "content"@
    &&& e.bindings@[0].1@ == content
}

/// The run continues with the dependency script at index `i`, or, past the last one,
/// with the parse routine.
pub open spec fn continues_at(p: &Plugin, run: &HotsRun, a: &Action, i: int) -> bool {
    if i < p.codes@.len() {
        &&& run.stage == Stage::Dependency(i as usize)
        &&& a matches Action::Fetch(u) && u@ == p.codes@[i].url@
    } else {
        &&& run.stage == Stage::Parsing
        &&& a matches Action::Evaluate(e) && parse_request(p, run.content@, &e)
    }
}

fn method_is_post(m: &String) -> (r: bool)
    ensures
        r == is_post(m@),
{
    let c = chars_of(m.as_str());
    c.len() == 4 && (c[0] == 'p' || c[0] == 'P') && (c[1] == 'o' || c[1] == 'O') && (c[2] == 's'
        || c[2] == 'S') && (c[3] == 't' || c[3] == 'T')
}

impl Plugin {
    fn continue_from(&self, run: &mut HotsRun, i: usize) -> (a: Action)
        requires
            i <= self.codes@.len(),
        ensures
            continues_at(self, final(run), &a, i as int),
            final(run).content == old(run).content,
    {
        if i < self.codes.len() {
            run.stage = Stage::Dependency(i);
            let u = self.codes[i].url.clone();
            Action::Fetch(u)
        } else {
            run.stage = Stage::Parsing;
            let key = "content".to_owned();
            let value = run.content.clone();
            let mut params: Vec<(String, String)> = Vec::new();
            params.push((key, value));
            assert(params@.len() == 1 && params@[0].0@ == "content"@ && params@[0].1@ == run.content@);
            let e = if !self.hots.parse.as_str().is_empty() {
                self.js.execute(self.code.as_str(), self.hots.parse.as_str(), params)
            } else {
                proof {
                    reveal_strlit("");
                    assert(""@ =~= Seq::<char>::empty());
                }
                self.js.execute("", self.code.as_str(), params)
            };
            Action::Evaluate(e)
        }
    }

    /// Starts extracting this plugin's records. With the POST method no request is
    /// made and the content is empty; otherwise the primary content is fetched first.
    pub fn start_hots(&self) -> (r: (HotsRun, Action))
        ensures
            is_post(self.hots.method@) ==> r.0.content@ == Seq::<char>::empty()
                && continues_at(self, &r.0, &r.1, 0),
            !is_post(self.hots.method@) ==> r.0.stage == Stage::Primary && (r.1 matches Action::Fetch(
                u
            ) && u@ == self.hots.url@),
    {
        let mut run = HotsRun { stage: Stage::Primary, content: String::new() };
        if method_is_post(&self.hots.method) {
            let a = self.continue_from(&mut run, 0);
            (run, a)
        } else {
            (run, Action::Fetch(self.hots.url.clone()))
        }
    }

    /// Takes the host's report on the last action of `run` and says what comes next.
    /// A failed fetch ends the run with `FetchFailed`, a failed evaluation with
    /// `Sandbox`, and neither yields any record; each dependency script is retained by
    /// the sandbox in manifest order; the records of the parse routine are the result.
    /// A report that does not answer the pending action counts as a failure of it.
    pub fn resume_hots(&mut self, run: &mut HotsRun, outcome: Outcome) -> (a: Action)
        requires
            old(run).stage != Stage::Done,
            old(run).stage matches Stage::Dependency(i) ==> i < old(self).codes@.len(),
        ensures
            final(self)@ == old(self)@,
            final(self).hots == old(self).hots,
            final(self).code == old(self).code,
            final(self).codes == old(self).codes,
            a matches Action::Finish(_) <==> final(run).stage == Stage::Done,
            match (old(run).stage, outcome) {
                (Stage::Primary, Outcome::Fetched(body)) => final(self).js@ == old(self).js@
                    && final(run).content == body && continues_at(final(self), final(run), &a, 0),
                (Stage::Dependency(i), Outcome::Fetched(body)) => final(self).js@ == old(
                    self,
                ).js@.push(body@) && final(run).content == old(run).content && continues_at(
                    final(self),
                    final(run),
                    &a,
                    i + 1,
                ),
                (Stage::Parsing, Outcome::Evaluated(books)) => a == Action::Finish(
                    Ok::<Vec<Book>, EngineError>(books),
                ),
                (Stage::Parsing, _) => a == Action::Finish(
                    Err::<Vec<Book>, EngineError>(EngineError::Sandbox),
                ),
                _ => a == Action::Finish(Err::<Vec<Book>, EngineError>(EngineError::FetchFailed)),
            },
    {
        match (run.stage, outcome) {
            (Stage::Primary, Outcome::Fetched(body)) => {
                run.content = body;
                self.continue_from(run, 0)
            },
            (Stage::Dependency(i), Outcome::Fetched(body)) => {
                let n = self.codes.len();
                assert(i < n);
                self.js.addScript(body.as_str());
                self.continue_from(run, i + 1)
            },
            (Stage::Parsing, Outcome::Evaluated(books)) => {
                run.stage = Stage::Done;
                Action::Finish(Ok(books))
            },
            (Stage::Parsing, _) => {
                run.stage = Stage::Done;
                Action::Finish(Err(EngineError::Sandbox))
            },
            _ => {
                run.stage = Stage::Done;
                Action::Finish(Err(EngineError::FetchFailed))
            },
        }
    }
}

} // verus!
