//! Template-driven prompt building. A builder is constructed once from the
//! four named fragments (priming, problem, solution, context); reading the
//! template directory is I/O and happens outside this crate, which receives
//! each fragment as a value, or nothing when its file was absent.
//!
//! Placeholder policy: a placeholder token found in a fragment is replaced
//! verbatim with caller-supplied content; a placeholder that does not occur
//! is simply not replaced, and unresolved placeholder text is left literal
//! rather than treated as an error.

use crate::errors::ErrorKind;
use crate::prompts::{flat_add, TextPrompt};
use crate::text::{replace_all, replace_all_str};
use vstd::prelude::*;

verus! {

/// A prompt builder holding the four template fragments.
pub struct DefaultTemplateBuilder {
    priming: String,
    problem: String,
    solution: String,
    context: String,
}

impl View for DefaultTemplateBuilder {
    type V = (Seq<char>, Seq<char>, Seq<char>, Seq<char>);

    closed spec fn view(&self) -> (Seq<char>, Seq<char>, Seq<char>, Seq<char>) {
        (self.priming@, self.problem@, self.solution@, self.context@)
    }
}

/// The role-and-content pairs of example sequences.
pub open spec fn pairs_view(ps: Seq<(String, String)>) -> Seq<(Seq<char>, Seq<char>)> {
    Seq::new(ps.len(), |i: int| (ps[i].0@, ps[i].1@))
}

/// Example pairs appended to a flat prompt text: for each pair, the
/// problem fragment with its placeholder replaced by the example problem,
/// then the solution fragment with its placeholder replaced by the
/// example solution, one line each.
pub open spec fn spec_examples_added(
    text: Seq<char>,
    problem_template: Seq<char>,
    solution_template: Seq<char>,
    examples: Seq<(Seq<char>, Seq<char>)>,
) -> Seq<char>
    decreases examples.len(),
{
    if examples.len() == 0 {
        text
    } else {
        spec_examples_added(
            flat_add(
                flat_add(text, replace_all(problem_template, "{PROBLEM_CONTENT}"@, examples[0].0)),
                replace_all(solution_template, "{SOLUTION_CONTENT}"@, examples[0].1),
            ),
            problem_template,
            solution_template,
            examples.drop_first(),
        )
    }
}

/// The full built prompt: the priming line, the example pairs, the
/// project example pairs, then the problem line for the target signature.
pub open spec fn spec_build(
    t: (Seq<char>, Seq<char>, Seq<char>, Seq<char>),
    signature: Seq<char>,
    examples: Seq<(Seq<char>, Seq<char>)>,
    project_examples: Seq<(Seq<char>, Seq<char>)>,
) -> Seq<char> {
    flat_add(
        spec_examples_added(
            spec_examples_added(flat_add(Seq::empty(), t.0), t.1, t.2, examples),
            t.1,
            t.2,
            project_examples,
        ),
        replace_all(t.1, "{PROBLEM_CONTENT}"@, signature),
    )
}

impl DefaultTemplateBuilder {
    /// Builds from the four fragments as read from the template
    /// directory; when any fragment is absent construction fails with
    /// `MissingTemplate`.
    pub fn new(
        priming: Option<String>,
        problem: Option<String>,
        solution: Option<String>,
        context: Option<String>,
    ) -> (r: Result<DefaultTemplateBuilder, ErrorKind>)
        ensures
            r is Ok <==> priming is Some && problem is Some && solution is Some && context
                is Some,
            r is Err ==> r == Err::<DefaultTemplateBuilder, ErrorKind>(ErrorKind::MissingTemplate),
            r matches Ok(b) ==> (priming matches Some(p) ==> b@.0 == p@) && (problem matches Some(
                q,
            ) ==> b@.1 == q@) && (solution matches Some(s) ==> b@.2 == s@) && (context matches Some(
                c,
            ) ==> b@.3 == c@),
    {
        match (priming, problem, solution, context) {
            (Some(priming), Some(problem), Some(solution), Some(context)) => {
                Ok(DefaultTemplateBuilder { priming, problem, solution, context })
            },
            _ => Err(ErrorKind::MissingTemplate),
        }
    }

    /// The priming fragment for the target file type; every file type
    /// currently shares the one priming fragment unchanged.
    pub fn format_priming(&self, target_file_type: u8) -> (r: String)
        ensures
            r@ == self@.0,
    {
        let _ = target_file_type;
        self.priming.clone()
    }

    /// The problem fragment with each problem-content placeholder
    /// replaced by `problem_content`.
    pub fn format_problem(&self, problem_content: &str) -> (r: String)
        ensures
            r@ == replace_all(self@.1, "{PROBLEM_CONTENT}"@, problem_content@),
    {
        proof {
            reveal_strlit("{PROBLEM_CONTENT}");
        }
        replace_all_str(self.problem.as_str(), "{PROBLEM_CONTENT}", problem_content)
    }

    /// The solution fragment with each solution-content placeholder
    /// replaced by `solution_content`.
    pub fn format_solution(&self, solution_content: &str) -> (r: String)
        ensures
            r@ == replace_all(self@.2, "{SOLUTION_CONTENT}"@, solution_content@),
    {
        proof {
            reveal_strlit("{SOLUTION_CONTENT}");
        }
        replace_all_str(self.solution.as_str(), "{SOLUTION_CONTENT}", solution_content)
    }

    /// The context fragment with the header and types placeholders
    /// replaced.
    pub fn format_context(&self, header_content: &str, type_content: &str) -> (r: String)
        ensures
            r@ == replace_all(
                replace_all(self@.3, "{CONTEXT_HEADER}"@, header_content@),
                "{CONTEXT_TYPES}"@,
                type_content@,
            ),
    {
        proof {
            reveal_strlit("{CONTEXT_HEADER}");
            reveal_strlit("{CONTEXT_TYPES}");
        }
        let with_header = replace_all_str(self.context.as_str(), "{CONTEXT_HEADER}", header_content);
        replace_all_str(with_header.as_str(), "{CONTEXT_TYPES}", type_content)
    }

    fn add_example_pairs(&self, p: &mut TextPrompt, pairs: &Vec<(String, String)>)
        ensures
            final(p)@ == spec_examples_added(old(p)@, self@.1, self@.2, pairs_view(pairs@)),
    {
        let ghost start = p@;
        let ghost pv = pairs_view(pairs@);
        proof {
            assert(pv.skip(0) =~= pv);
        }
        let mut i: usize = 0;
        while i < pairs.len()
            invariant
                i <= pairs.len(),
                pv == pairs_view(pairs@),
                pv.len() == pairs.len(),
                spec_examples_added(p@, self@.1, self@.2, pv.skip(i as int))
                    == spec_examples_added(start, self@.1, self@.2, pv),
            decreases pairs.len() - i,
        {
            let fp = self.format_problem(pairs[i].0.as_str());
            let fs = self.format_solution(pairs[i].1.as_str());
            p.add_problem(fp.as_str());
            p.add_solution(fs.as_str());
            proof {
                assert(pv.skip(i as int).drop_first() =~= pv.skip(i as int + 1));
                assert(pv.skip(i as int)[0] == (pairs@[i as int].0@, pairs@[i as int].1@));
            }
            i += 1;
        }
        proof {
            assert(pv.skip(pairs.len() as int).len() == 0);
        }
    }

    /// Assembles the final flat prompt for `function_signature`: the
    /// priming line, each example pair and each project example pair as
    /// problem and solution lines, then the problem line built from the
    /// signature. Absent example collections contribute nothing.
    pub fn build(
        &self,
        function_signature: &str,
        target_file_type: u8,
        example_pairs: &Option<Vec<(String, String)>>,
        project_examples: &Option<Vec<(String, String)>>,
    ) -> (r: String)
        ensures
            r@ == spec_build(
                self@,
                function_signature@,
                match example_pairs {
                    Some(v) => pairs_view(v@),
                    None => Seq::empty(),
                },
                match project_examples {
                    Some(v) => pairs_view(v@),
                    None => Seq::empty(),
                },
            ),
    {
        let mut p = TextPrompt::new();
        let priming = self.format_priming(target_file_type);
        p.add_priming(priming.as_str());
        match example_pairs {
            Some(v) => self.add_example_pairs(&mut p, v),
            None => {
                proof {
                    assert(spec_examples_added(p@, self@.1, self@.2, Seq::empty()) == p@);
                }
            },
        }
        match project_examples {
            Some(v) => self.add_example_pairs(&mut p, v),
            None => {},
        }
        let fp = self.format_problem(function_signature);
        p.add_problem(fp.as_str());
        p.get()
    }
}

} // verus!
