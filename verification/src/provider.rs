//! The polymorphic backend abstraction: a closed set of providers that turn
//! a prompt into raw completions and report identity, context-window size
//! and an estimated token count.
//!
//! Temperatures are carried in thousandths (a value of 800 stands for 0.8),
//! since the sampling range [0, 2] in thousandths is exact in integers.
//!
//! `generate` is pure: it validates its arguments and returns the action
//! for the unverified shell to carry out — completions to persist for the
//! simulated backend, a process invocation for the external-binary backend,
//! and a chat call for the remote tiers. Process exit and file writes are
//! judged by the shell (`SpawnFailed`, `GenerationFailed`, `IO`).

use crate::errors::ErrorKind;
use crate::text::{dec_digit, dec_rep, digit_str, two_digit_rep, u64_to_dec, u64_to_two_digit};
use vstd::prelude::*;

verus! {

/// The closed set of remote model tiers sharing one dispatch mechanism.
#[derive(Clone, Copy, Debug, PartialEq, Eq, Structural)]
pub enum RemoteModel {
    CodeBison,
    CodeBison32k,
    GeminiPro,
}

/// A pluggable backend capable of turning a prompt into one or more raw
/// text completions.
pub enum Provider {
    /// Synthesizes placeholder completions, for exercising the pipeline
    /// without a real model.
    Simulated,
    /// Launches an external executable; unavailable until a binary path
    /// is configured.
    ExternalBinary { name: String, max_tokens: u64, ai_binary: Option<String> },
    /// One of the named remote tiers.
    Remote(RemoteModel),
}

/// An ASCII letter or digit; everything else delimits a token for the
/// estimation heuristic.
pub open spec fn is_alnum(c: char) -> bool {
    (48 <= c as u32 && c as u32 <= 57) || (97 <= c as u32 && c as u32 <= 122) || (65 <= c as u32
        && c as u32 <= 90)
}

fn char_is_alnum(c: char) -> (b: bool)
    ensures
        b == is_alnum(c),
{
    let u = c as u32;
    (48 <= u && u <= 57) || (97 <= u && u <= 122) || (65 <= u && u <= 90)
}

/// How many characters of `s` are token delimiters.
pub open spec fn count_delims(s: Seq<char>) -> int
    decreases s.len(),
{
    if s.len() == 0 {
        0
    } else {
        (if is_alnum(s[0]) {
            0int
        } else {
            1int
        }) + count_delims(s.drop_first())
    }
}

/// The token estimate: the count of delimiter-separated pieces, times
/// three halves, rounded down — roughly 1.5 tokens per word. The same
/// heuristic serves every backend, so the estimate is a pure function of
/// the text alone.
pub open spec fn spec_estimate_token_num(text: Seq<char>) -> int {
    (count_delims(text) + 1) * 3 / 2
}

proof fn lemma_count_delims_bound(s: Seq<char>)
    ensures
        0 <= count_delims(s) <= s.len(),
    decreases s.len(),
{
    if s.len() > 0 {
        lemma_count_delims_bound(s.drop_first());
    }
}

/// Law: token estimation is deterministic and pure. Any two results of
/// estimating identical text are identical, since each equals the one
/// estimate that the text determines.
pub proof fn lemma_estimate_deterministic(text: Seq<char>, r1: usize, r2: usize)
    requires
        r1 == spec_estimate_token_num(text),
        r2 == spec_estimate_token_num(text),
    ensures
        r1 == r2,
{
}

/// The sampling arguments every provider accepts: at least one sample,
/// temperature within [0, 2] (in thousandths).
pub open spec fn args_valid(sample_count: usize, temperature_milli: u32) -> bool {
    sample_count >= 1 && temperature_milli <= 2000
}

/// Rejects a zero sample count or an out-of-range temperature.
pub fn validate_args(sample_count: usize, temperature_milli: u32) -> (r: Result<(), ErrorKind>)
    ensures
        r is Ok <==> args_valid(sample_count, temperature_milli),
        r is Err ==> r == Err::<(), ErrorKind>(ErrorKind::InvalidArgument),
{
    if sample_count == 0 || temperature_milli > 2000 {
        Err(ErrorKind::InvalidArgument)
    } else {
        Ok(())
    }
}

/// One raw completion, numbered from 1, together with the name of the
/// artifact it is persisted under.
pub struct RawCompletion {
    pub index: usize,
    pub filename: String,
    pub content: String,
}

/// The artifact name for the sample at 1-based `index`: the index
/// zero-padded to two digits, then the raw-output extension.
pub open spec fn artifact_name(index: int) -> Seq<char> {
    two_digit_rep(index) + ".rawoutput"@
}

/// Builds the artifact name for one sample index.
pub fn sample_filename(index: u64) -> (r: String)
    ensures
        r@ == artifact_name(index as int),
{
    let mut s = u64_to_two_digit(index);
    s.append(".rawoutput");
    proof {
        assert(s@ =~= artifact_name(index as int));
    }
    s
}

/// The placeholder text of the simulated sample at 1-based `index`.
pub open spec fn simulated_content(index: int) -> Seq<char> {
    "Sample output from GPT "@ + dec_rep(index)
}

fn simulated_sample(index: u64) -> (r: String)
    ensures
        r@ == simulated_content(index as int),
{
    let mut s = "Sample output from GPT ".to_owned();
    let d = u64_to_dec(index);
    s.append(d.as_str());
    proof {
        assert(s@ =~= simulated_content(index as int));
    }
    s
}

/// The rendering of a temperature in thousandths: the whole part, then a
/// dot and the fraction digits with trailing zeros dropped; no dot when
/// the fraction is zero (800 renders as "0.8", 2000 as "2").
pub open spec fn temp_rep(m: int) -> Seq<char> {
    if m % 1000 == 0 {
        dec_rep(m / 1000)
    } else {
        dec_rep(m / 1000) + seq!['.'] + frac_rep(m % 1000)
    }
}

/// The fraction digits of a temperature, trailing zeros dropped.
pub open spec fn frac_rep(f: int) -> Seq<char> {
    if f % 10 != 0 {
        seq![dec_digit(f / 100), dec_digit(f / 10 % 10), dec_digit(f % 10)]
    } else if f / 10 % 10 != 0 {
        seq![dec_digit(f / 100), dec_digit(f / 10 % 10)]
    } else {
        seq![dec_digit(f / 100)]
    }
}

/// Renders a temperature in thousandths.
pub fn temp_to_dec(m: u32) -> (r: String)
    ensures
        r@ == temp_rep(m as int),
{
    let whole = (m / 1000) as u64;
    let f = (m % 1000) as u64;
    let mut s = u64_to_dec(whole);
    if f == 0 {
        return s;
    }
    proof {
        reveal_strlit(".");
        assert("."@ =~= seq!['.']);
    }
    s.append(".");
    let d1 = f / 100;
    let d2 = f / 10 % 10;
    let d3 = f % 10;
    if d3 != 0 {
        s.append(digit_str(d1));
        s.append(digit_str(d2));
        s.append(digit_str(d3));
    } else if d2 != 0 {
        s.append(digit_str(d1));
        s.append(digit_str(d2));
    } else {
        s.append(digit_str(d1));
    }
    proof {
        assert(s@ =~= temp_rep(m as int));
    }
    s
}

/// The argument list the external binary is spawned with, encoding model
/// name, prompt, output directory, token budget, sample count and
/// temperature.
pub open spec fn binary_args(
    name: Seq<char>,
    prompt: Seq<char>,
    response_dir: Seq<char>,
    max_tokens: int,
    sample_count: int,
    temperature_milli: int,
) -> Seq<Seq<char>> {
    seq![
        "-model="@ + name,
        "-prompt="@ + prompt,
        "-response="@ + response_dir,
        "-max-tokens="@ + dec_rep(max_tokens),
        "-expected-samples="@ + dec_rep(sample_count),
        "-temperature="@ + temp_rep(temperature_milli),
    ]
}

fn prefixed(prefix: &str, rest: &str) -> (r: String)
    ensures
        r@ == prefix@ + rest@,
{
    let mut s = prefix.to_owned();
    s.append(rest);
    s
}

/// What a `generate` call asks the unverified shell to do.
pub enum GenerateAction {
    /// Completions to persist, one artifact each, in order.
    WriteSamples(Vec<RawCompletion>),
    /// A process to launch; exit code zero is required for success.
    SpawnProcess { binary: String, args: Vec<String> },
    /// A chat call against the named remote model.
    RemoteCall { model: String, prompt: String, sample_count: usize, temperature_milli: u32 },
}

impl Provider {
    /// The provider's name.
    pub open spec fn spec_name(&self) -> Seq<char> {
        match self {
            Provider::Simulated => "gpt"@,
            Provider::ExternalBinary { name, .. } => name@,
            Provider::Remote(RemoteModel::CodeBison) => "vertex_ai_code-bison"@,
            Provider::Remote(RemoteModel::CodeBison32k) => "vertex_ai_code-bison-32k"@,
            Provider::Remote(RemoteModel::GeminiPro) => "vertex_ai_gemini-pro"@,
        }
    }

    /// Reports the provider's name.
    pub fn identify(&self) -> (r: String)
        ensures
            r@ == self.spec_name(),
    {
        match self {
            Provider::Simulated => "gpt".to_owned(),
            Provider::ExternalBinary { name, .. } => name.clone(),
            Provider::Remote(RemoteModel::CodeBison) => "vertex_ai_code-bison".to_owned(),
            Provider::Remote(RemoteModel::CodeBison32k) => "vertex_ai_code-bison-32k".to_owned(),
            Provider::Remote(RemoteModel::GeminiPro) => "vertex_ai_gemini-pro".to_owned(),
        }
    }

    /// The most tokens the backend accepts in one prompt.
    pub open spec fn spec_context_window(&self) -> int {
        match self {
            Provider::Simulated => 2000,
            Provider::ExternalBinary { .. } => 1500,
            Provider::Remote(RemoteModel::CodeBison) => 4096,
            Provider::Remote(RemoteModel::CodeBison32k) => 32768,
            Provider::Remote(RemoteModel::GeminiPro) => 30720,
        }
    }

    /// Reports the context-window size; callers use it to decide how much
    /// example content to include. Nothing here enforces truncation.
    pub fn context_window(&self) -> (r: usize)
        ensures
            r == self.spec_context_window(),
    {
        match self {
            Provider::Simulated => 2000,
            Provider::ExternalBinary { .. } => 1500,
            Provider::Remote(RemoteModel::CodeBison) => 4096,
            Provider::Remote(RemoteModel::CodeBison32k) => 32768,
            Provider::Remote(RemoteModel::GeminiPro) => 30720,
        }
    }

    /// Estimates the token count of `text`: a deterministic, pure
    /// heuristic, identical across calls on identical text. The bound on
    /// the text length only keeps the count arithmetic within `usize`.
    pub fn estimate_token_num(&self, text: &str) -> (r: usize)
        requires
            3 * (text@.len() + 1) <= usize::MAX,
        ensures
            r == spec_estimate_token_num(text@),
    {
        let len = text.unicode_len();
        let mut count: usize = 0;
        let mut i: usize = 0;
        while i < len
            invariant
                i <= len,
                len == text@.len(),
                count == count_delims(text@.take(i as int)),
                count <= i,
            decreases len - i,
        {
            let c = text.get_char(i);
            proof {
                lemma_count_delims_take_step(text@, i as int);
            }
            if !char_is_alnum(c) {
                count += 1;
            }
            i += 1;
        }
        proof {
            assert(text@.take(len as int) =~= text@);
            lemma_count_delims_bound(text@);
        }
        (count + 1) * 3 / 2
    }
}

proof fn lemma_count_delims_take_step(s: Seq<char>, i: int)
    requires
        0 <= i < s.len(),
    ensures
        count_delims(s.take(i + 1)) == count_delims(s.take(i)) + (if is_alnum(s[i]) {
            0int
        } else {
            1int
        }),
    decreases i,
{
    let a = s.take(i + 1);
    let b = s.take(i);
    if i == 0 {
        assert(a.drop_first() =~= b);
    } else {
        lemma_count_delims_take_step(s.drop_first(), i - 1);
        assert(a.drop_first() =~= s.drop_first().take(i));
        assert(b.drop_first() =~= s.drop_first().take(i - 1));
        assert(s.drop_first().take(i)[i - 1] == s[i]);
    }
}

impl Provider {
    /// Produces the generation action for `prompt` with `sample_count`
    /// samples at the given temperature. Rejects invalid sampling
    /// arguments; the external-binary backend is unavailable until its
    /// binary path is set. With valid arguments the simulated backend
    /// yields exactly `sample_count` completions, numbered from 1 and
    /// named by `artifact_name`; the external backend yields the process
    /// invocation encoding its flags; a remote tier yields the chat call.
    pub fn generate(
        &self,
        prompt: &str,
        response_dir: &str,
        sample_count: usize,
        temperature_milli: u32,
    ) -> (r: Result<GenerateAction, ErrorKind>)
        ensures
            !args_valid(sample_count, temperature_milli) <==> r == Err::<
                GenerateAction,
                ErrorKind,
            >(ErrorKind::InvalidArgument),
            args_valid(sample_count, temperature_milli) && self is Simulated ==> (r matches Ok(
                GenerateAction::WriteSamples(v),
            ) && v@.len() == sample_count && (forall|k: int|
                0 <= k < sample_count ==> (#[trigger] v@[k]).index == k + 1 && v@[k].filename@
                    == artifact_name(k + 1) && v@[k].content@ == simulated_content(k + 1))),
            args_valid(sample_count, temperature_milli) && (self matches Provider::ExternalBinary {
                ai_binary: None,
                ..
            }) ==> r == Err::<GenerateAction, ErrorKind>(ErrorKind::BackendUnavailable),
            args_valid(sample_count, temperature_milli) ==> (self matches Provider::ExternalBinary {
                name,
                max_tokens,
                ai_binary: Some(bin),
            } ==> (r matches Ok(GenerateAction::SpawnProcess { binary, args }) && binary@ == bin@
                && args.deep_view() == binary_args(
                name@,
                prompt@,
                response_dir@,
                max_tokens as int,
                sample_count as int,
                temperature_milli as int,
            ))),
            args_valid(sample_count, temperature_milli) && self is Remote ==> (r matches Ok(
                GenerateAction::RemoteCall { model, prompt: p, sample_count: n, temperature_milli: t },
            ) && model@ == self.spec_name() && p@ == prompt@ && n == sample_count && t
                == temperature_milli),
    {
        if let Err(e) = validate_args(sample_count, temperature_milli) {
            return Err(e);
        }
        match self {
            Provider::Simulated => {
                let mut v: Vec<RawCompletion> = Vec::new();
                let mut k: usize = 0;
                while k < sample_count
                    invariant
                        k <= sample_count,
                        v@.len() == k,
                        forall|j: int|
                            0 <= j < k ==> (#[trigger] v@[j]).index == j + 1 && v@[j].filename@
                                == artifact_name(j + 1) && v@[j].content@ == simulated_content(
                                j + 1,
                            ),
                    decreases sample_count - k,
                {
                    let index = k + 1;
                    v.push(
                        RawCompletion {
                            index,
                            filename: sample_filename(index as u64),
                            content: simulated_sample(index as u64),
                        },
                    );
                    k += 1;
                }
                Ok(GenerateAction::WriteSamples(v))
            },
            Provider::ExternalBinary { name, max_tokens, ai_binary } => {
                match ai_binary {
                    None => Err(ErrorKind::BackendUnavailable),
                    Some(bin) => {
                        let mut args: Vec<String> = Vec::new();
                        args.push(prefixed("-model=", name.as_str()));
                        args.push(prefixed("-prompt=", prompt));
                        args.push(prefixed("-response=", response_dir));
                        let mt = u64_to_dec(*max_tokens);
                        args.push(prefixed("-max-tokens=", mt.as_str()));
                        let sc = u64_to_dec(sample_count as u64);
                        args.push(prefixed("-expected-samples=", sc.as_str()));
                        let tm = temp_to_dec(temperature_milli);
                        args.push(prefixed("-temperature=", tm.as_str()));
                        proof {
                            assert(args.deep_view() =~= binary_args(
                                name@,
                                prompt@,
                                response_dir@,
                                *max_tokens as int,
                                sample_count as int,
                                temperature_milli as int,
                            ));
                        }
                        Ok(GenerateAction::SpawnProcess { binary: bin.clone(), args })
                    },
                }
            },
            Provider::Remote(_) => {
                Ok(
                    GenerateAction::RemoteCall {
                        model: self.identify(),
                        prompt: prompt.to_owned(),
                        sample_count,
                        temperature_milli,
                    },
                )
            },
        }
    }
}

} // verus!
