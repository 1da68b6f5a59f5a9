use crate::pipeline::{ContainerMethod, Pipeline};
use vstd::prelude::*;
use vstd::string::StringExecFns;

verus! {

/// Error raised when the pipeline configuration names a container method
/// the runner does not support. Carries the offending method name.
#[derive(Debug, PartialEq, Eq)]
pub enum PipelineParserError {
    UnavailableContainerMethod(String),
}

impl PipelineParserError {
    /// The human-readable description of the error.
    pub fn message(&self) -> (m: String)
        ensures
            self matches PipelineParserError::UnavailableContainerMethod(method) ==> m@
                == "Container method "@ + method@ + " is not supported."@,
    {
        match self {
            PipelineParserError::UnavailableContainerMethod(method) => {
                let mut m: String = "Container method ".to_owned();
                m.append(method.as_str());
                m.append(" is not supported.");
                m
            },
        }
    }
}

/// What `char::is_whitespace` returns for a character.
pub uninterp spec fn is_whitespace_char(c: char) -> bool;

/// What `char::is_alphanumeric` returns for a character.
pub uninterp spec fn is_alphanumeric_char(c: char) -> bool;

/// Relies on `char::is_whitespace`: the Unicode `White_Space` classification,
/// a function of the character alone.
#[verifier::external_body]
fn char_is_whitespace(c: char) -> (r: bool)
    ensures
        r == is_whitespace_char(c),
{
    c.is_whitespace()
}

/// Relies on `char::is_alphanumeric`: the Unicode letter-or-number
/// classification, a function of the character alone.
#[verifier::external_body]
fn char_is_alphanumeric(c: char) -> (r: bool)
    ensures
        r == is_alphanumeric_char(c),
{
    c.is_alphanumeric()
}

/// The container-method name at the head of a configuration: its
/// alphanumeric characters, with whitespace skipped, up to the first `{`
/// or the first character that is neither alphanumeric nor whitespace.
pub open spec fn method_name(s: Seq<char>) -> Seq<char>
    decreases s.len(),
{
    if s.len() == 0 {
        Seq::empty()
    } else if s[0] == '{' {
        Seq::empty()
    } else if is_alphanumeric_char(s[0]) {
        seq![s[0]] + method_name(s.drop_first())
    } else if is_whitespace_char(s[0]) {
        method_name(s.drop_first())
    } else {
        Seq::empty()
    }
}

/// Parser for the pipeline configuration header, e.g. `docker { ... }`.
pub struct PipelineParser {
    pub input: String,
}

impl PipelineParser {
    pub fn new(input: &str) -> (parser: Self)
        ensures
            parser.input@ == input@,
    {
        Self { input: input.to_owned() }
    }

    /// Parses the configuration. Succeeds exactly when the leading
    /// container-method name is `docker`; the resulting pipeline has no jobs
    /// and triggers on the `main` branch.
    pub fn parse(&self) -> (result: Result<Pipeline, PipelineParserError>)
        ensures
            result is Ok <==> method_name(self.input@) == "docker"@,
            result matches Ok(pipeline) ==> {
                &&& pipeline.container_method == ContainerMethod::Docker
                &&& pipeline.jobs@.len() == 0
                &&& pipeline.trigger_branches.deep_view() == seq!["main"@]
            },
            result matches Err(PipelineParserError::UnavailableContainerMethod(m))
                ==> m@ == method_name(self.input@),
    {
        let chars = chars_of(self.input.as_str());

        let container_method = match self.parse_container_method(&chars) {
            Ok(v) => v,
            Err(e) => {
                return Err(e);
            },
        };

        let mut trigger_branches: Vec<String> = Vec::new();
        trigger_branches.push("main".to_owned());
        proof {
            assert(trigger_branches.deep_view() =~= seq!["main"@]);
        }

        Ok(Pipeline { trigger_branches, container_method, jobs: Vec::new() })
    }

    /// Scans the container-method name and maps it to a `ContainerMethod`;
    /// `docker` is the only supported one.
    pub(crate) fn parse_container_method(&self, chars: &Vec<char>) -> (result: Result<
        ContainerMethod,
        PipelineParserError,
    >)
        ensures
            result is Ok <==> method_name(chars@) == "docker"@,
            result matches Ok(cm) ==> cm == ContainerMethod::Docker,
            result matches Err(PipelineParserError::UnavailableContainerMethod(m))
                ==> m@ == method_name(chars@),
    {
        let mut collected: Vec<char> = Vec::new();
        let n = chars.len();
        let mut i: usize = 0;
        proof {
            assert(chars@.subrange(0, n as int) =~= chars@);
        }

        while i < n
            invariant
                i <= n,
                n == chars@.len(),
                collected@ + method_name(chars@.subrange(i as int, n as int)) == method_name(
                    chars@,
                ),
            ensures
                collected@ == method_name(chars@),
            decreases n - i,
        {
            let current = chars[i];
            proof {
                assert(chars@.subrange(i as int, n as int)[0] == chars@[i as int]);
                assert(chars@.subrange(i as int, n as int).drop_first() =~= chars@.subrange(
                    i as int + 1,
                    n as int,
                ));
            }
            if current == '{' {
                proof {
                    assert(method_name(chars@.subrange(i as int, n as int))
                        == Seq::<char>::empty());
                }
                break;
            } else if char_is_alphanumeric(current) {
                collected.push(current);
                i += 1;
            } else if char_is_whitespace(current) {
                i += 1;
            } else {
                proof {
                    assert(method_name(chars@.subrange(i as int, n as int))
                        == Seq::<char>::empty());
                }
                break;
            }
        }

        let name = string_from_chars(&collected);
        let docker: String = "docker".to_owned();
        if name == docker {
            Ok(ContainerMethod::Docker)
        } else {
            Err(PipelineParserError::UnavailableContainerMethod(name))
        }
    }
}

/// Relies on `str::chars`: yields exactly the characters of the string,
/// in order.
#[verifier::external_body]
fn chars_of(s: &str) -> (v: Vec<char>)
    ensures
        v@ == s@,
{
    s.chars().collect()
}

/// Relies on `String`'s `FromIterator<char>`: collects exactly the given
/// characters, in order.
#[verifier::external_body]
fn string_from_chars(v: &Vec<char>) -> (s: String)
    ensures
        s@ == v@,
{
    v.iter().collect()
}

} // verus!
