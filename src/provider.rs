use vstd::prelude::*;

use crate::error::{FieldProblem, InputField, ProviderError};
use crate::json::{parsed_json, Json};
use crate::wire::{lookup, member, parse_request_line, request_spec};

verus! {

/// The resource types that the reference provider knows.
#[derive(PartialEq, Eq, Structural, Clone, Copy, Debug)]
pub enum ResourceKind {
    /// Writes a file.
    File,
    /// Runs a command and captures its output.
    Exec,
}

/// The typed input of a `file` resource.
#[derive(Debug, PartialEq)]
pub struct FileInput {
    pub name: String,
    pub contents: String,
}

/// The typed input of an `exec` resource.
#[derive(Debug, PartialEq)]
pub struct ExecInput {
    pub executable: String,
    pub args: Vec<String>,
    pub stdin: Option<String>,
}

/// The work that a provider has decided to do for one request.
#[derive(Debug, PartialEq)]
pub enum Plan {
    WriteFile(FileInput),
    Exec(ExecInput),
}

/// The resource type that a name selects, if the provider knows it.
pub open spec fn kind_of(t: Seq<char>) -> Option<ResourceKind> {
    if t == "file"@ {
        Some(ResourceKind::File)
    } else if t == "exec"@ {
        Some(ResourceKind::Exec)
    } else {
        None
    }
}

/// Selects the handler for a resource type name.
pub fn select_handler(t: String) -> (r: Result<ResourceKind, ProviderError>)
    ensures
        kind_of(t@) matches Some(k) ==> r == Ok::<ResourceKind, ProviderError>(k),
        kind_of(t@) is None ==> r == Err::<ResourceKind, ProviderError>(
            ProviderError::UnknownResourceType(t),
        ),
{
    let file = "file".to_owned();
    let exec = "exec".to_owned();
    if t == file {
        Ok(ResourceKind::File)
    } else if t == exec {
        Ok(ResourceKind::Exec)
    } else {
        Err(ProviderError::UnknownResourceType(t))
    }
}

/// What is wrong with the string property `key` of `m`, if anything.
pub open spec fn string_problem(m: Seq<(String, Json)>, key: Seq<char>) -> Option<FieldProblem> {
    match member(m, key) {
        Some(Json::Str(_)) => None,
        Some(_) => Some(FieldProblem::WrongType),
        None => Some(FieldProblem::Missing),
    }
}

/// `s` is the value of the string property `key` of `m`.
pub open spec fn string_value(m: Seq<(String, Json)>, key: Seq<char>, s: String) -> bool {
    member(m, key) == Some(Json::Str(s))
}

/// Every element of `a` is a string.
pub open spec fn all_strings(a: Seq<Json>) -> bool {
    forall|i: int| 0 <= i < a.len() ==> a[i] is Str
}

/// What is wrong with the `args` property of `m`, if anything: it must be an
/// array of strings.
pub open spec fn args_problem(m: Seq<(String, Json)>) -> Option<FieldProblem> {
    match member(m, "args"@) {
        Some(Json::Array(a)) => if all_strings(a@) {
            None
        } else {
            Some(FieldProblem::WrongType)
        },
        Some(_) => Some(FieldProblem::WrongType),
        None => Some(FieldProblem::Missing),
    }
}

/// What is wrong with the optional `stdin` property of `m`, if anything: it
/// may be absent or null, or else must be a string.
pub open spec fn stdin_problem(m: Seq<(String, Json)>) -> Option<FieldProblem> {
    match member(m, "stdin"@) {
        Some(Json::Str(_)) | Some(Json::Null) | None => None,
        Some(_) => Some(FieldProblem::WrongType),
    }
}

/// The first property of a `file` input that does not fit its shape.
pub open spec fn file_problem(m: Seq<(String, Json)>) -> Option<(InputField, FieldProblem)> {
    if let Some(p) = string_problem(m, "name"@) {
        Some((InputField::Name, p))
    } else if let Some(p) = string_problem(m, "contents"@) {
        Some((InputField::Contents, p))
    } else {
        None
    }
}

/// The first property of an `exec` input that does not fit its shape.
pub open spec fn exec_problem(m: Seq<(String, Json)>) -> Option<(InputField, FieldProblem)> {
    if let Some(p) = string_problem(m, "executable"@) {
        Some((InputField::Executable, p))
    } else if let Some(p) = args_problem(m) {
        Some((InputField::Args, p))
    } else if let Some(p) = stdin_problem(m) {
        Some((InputField::Stdin, p))
    } else {
        None
    }
}

/// `e` reports that property `f` of a `k` input has problem `p`.
pub open spec fn is_input_error(e: ProviderError, k: ResourceKind, f: InputField, p: FieldProblem) -> bool {
    e == ProviderError::InputValidationFailure { kind: k, field: f, problem: p }
}

/// The typed input `x` holds what the `file` properties `m` say.
pub open spec fn file_input_of(m: Seq<(String, Json)>, x: FileInput) -> bool {
    &&& string_value(m, "name"@, x.name)
    &&& string_value(m, "contents"@, x.contents)
}

/// The typed input `x` holds what the `exec` properties `m` say.
pub open spec fn exec_input_of(m: Seq<(String, Json)>, x: ExecInput) -> bool {
    &&& string_value(m, "executable"@, x.executable)
    &&& (member(m, "args"@) matches Some(Json::Array(a)) && a@.len() == x.args@.len() && forall|
        i: int,
    | 0 <= i < a@.len() ==> a@[i] == Json::Str(#[trigger] x.args@[i]))
    &&& match member(m, "stdin"@) {
        Some(Json::Str(s)) => x.stdin == Some(s),
        _ => x.stdin is None,
    }
}

/// Reads the string property `key` of `m`.
fn string_property(m: &Vec<(String, Json)>, key: &str) -> (r: Result<String, FieldProblem>)
    ensures
        r matches Ok(s) ==> string_value(m@, key@, s),
        r matches Err(p) ==> string_problem(m@, key@) == Some(p),
        r is Ok <==> string_problem(m@, key@) is None,
{
    match lookup(m, key) {
        Some(i) => match &m[i].1 {
            Json::Str(s) => Ok(s.clone()),
            _ => Err(FieldProblem::WrongType),
        },
        None => Err(FieldProblem::Missing),
    }
}

/// Decodes the input properties of a `file` resource into its typed shape.
pub fn decode_file_input(m: &Vec<(String, Json)>) -> (r: Result<FileInput, ProviderError>)
    ensures
        file_problem(m@) matches Some((f, p)) ==> (r matches Err(e) && is_input_error(
            e,
            ResourceKind::File,
            f,
            p,
        )),
        file_problem(m@) is None ==> (r matches Ok(x) && file_input_of(m@, x)),
{
    proof {
        reveal_strlit("name");
        reveal_strlit("contents");
    }
    let name = match string_property(m, "name") {
        Ok(s) => s,
        Err(p) => {
            return Err(
                ProviderError::InputValidationFailure {
                    kind: ResourceKind::File,
                    field: InputField::Name,
                    problem: p,
                },
            );
        },
    };
    let contents = match string_property(m, "contents") {
        Ok(s) => s,
        Err(p) => {
            return Err(
                ProviderError::InputValidationFailure {
                    kind: ResourceKind::File,
                    field: InputField::Contents,
                    problem: p,
                },
            );
        },
    };
    Ok(FileInput { name, contents })
}


/// Decodes the input properties of an `exec` resource into its typed shape.
pub fn decode_exec_input(m: &Vec<(String, Json)>) -> (r: Result<ExecInput, ProviderError>)
    ensures
        exec_problem(m@) matches Some((f, p)) ==> (r matches Err(e) && is_input_error(
            e,
            ResourceKind::Exec,
            f,
            p,
        )),
        exec_problem(m@) is None ==> (r matches Ok(x) && exec_input_of(m@, x)),
{
    proof {
        reveal_strlit("executable");
        reveal_strlit("args");
        reveal_strlit("stdin");
    }
    let executable = match string_property(m, "executable") {
        Ok(s) => s,
        Err(p) => {
            return Err(
                ProviderError::InputValidationFailure {
                    kind: ResourceKind::Exec,
                    field: InputField::Executable,
                    problem: p,
                },
            );
        },
    };
    let wrong_args = ProviderError::InputValidationFailure {
        kind: ResourceKind::Exec,
        field: InputField::Args,
        problem: FieldProblem::WrongType,
    };
    let ai = match lookup(m, "args") {
        Some(i) => i,
        None => {
            return Err(
                ProviderError::InputValidationFailure {
                    kind: ResourceKind::Exec,
                    field: InputField::Args,
                    problem: FieldProblem::Missing,
                },
            );
        },
    };
    let a = match &m[ai].1 {
        Json::Array(a) => a,
        _ => {
            return Err(wrong_args);
        },
    };
    assert(member(m@, "args"@) == Some(Json::Array(*a)));
    let mut args: Vec<String> = Vec::new();
    let mut i: usize = 0;
    while i < a.len()
        invariant
            i <= a@.len(),
            args@.len() == i,
            forall|j: int| 0 <= j < i ==> a@[j] == Json::Str(#[trigger] args@[j]),
            member(m@, "args"@) == Some(Json::Array(*a)),
            string_problem(m@, "executable"@) is None,
            is_input_error(wrong_args, ResourceKind::Exec, InputField::Args, FieldProblem::WrongType),
        decreases a@.len() - i,
    {
        match &a[i] {
            Json::Str(s) => {
                args.push(s.clone());
            },
            _ => {
                assert(!all_strings(a@)) by {
                    assert(!(a@[i as int] is Str));
                }
                return Err(wrong_args);
            },
        }
        i = i + 1;
    }
    assert(all_strings(a@)) by {
        assert forall|j: int| 0 <= j < a@.len() implies a@[j] is Str by {
            assert(a@[j] == Json::Str(args@[j]));
        }
    }
    assert(args_problem(m@) is None);
    let stdin = match lookup(m, "stdin") {
        Some(si) => match &m[si].1 {
            Json::Str(s) => Some(s.clone()),
            Json::Null => None,
            _ => {
                return Err(
                    ProviderError::InputValidationFailure {
                        kind: ResourceKind::Exec,
                        field: InputField::Stdin,
                        problem: FieldProblem::WrongType,
                    },
                );
            },
        },
        None => None,
    };
    Ok(ExecInput { executable, args, stdin })
}

/// The output properties of a `file` resource: none.
pub fn file_output() -> (r: Vec<(String, Json)>)
    ensures
        r@.len() == 0,
{
    Vec::new()
}

/// The output properties of an `exec` resource: the captured output as
/// `stdout`.
pub fn exec_output(stdout: String) -> (r: Vec<(String, Json)>)
    ensures
        r@.len() == 1,
        r@[0].0@ == "stdout"@,
        r@[0].1 == Json::Str(stdout),
{
    let mut r: Vec<(String, Json)> = Vec::new();
    r.push(("stdout".to_owned(), Json::Str(stdout)));
    r
}

/// The plan that a typed input of resource type `k` decoded from `m` gives.
pub open spec fn plan_of(k: ResourceKind, m: Seq<(String, Json)>, p: Plan) -> bool {
    match k {
        ResourceKind::File => p matches Plan::WriteFile(x) && file_input_of(m, x),
        ResourceKind::Exec => p matches Plan::Exec(x) && exec_input_of(m, x),
    }
}

/// The first property of a `k` input that does not fit its shape.
pub open spec fn input_problem(k: ResourceKind, m: Seq<(String, Json)>) -> Option<(InputField, FieldProblem)> {
    match k {
        ResourceKind::File => file_problem(m),
        ResourceKind::Exec => exec_problem(m),
    }
}

/// Decides what a provider does with one request line: decode it, select the
/// handler of its resource type, and decode its input properties into that
/// type's shape.  Nothing is done for a request that fails any of these.
pub fn plan_request(line: &str) -> (r: Result<Plan, ProviderError>)
    ensures
        parsed_json(line@) is None ==> (r matches Err(ProviderError::ProtocolViolation(
            crate::error::Violation::Malformed(_),
        ))),
        parsed_json(line@) matches Some(doc) ==> match request_spec(doc) {
            Err(v) => r == Err::<Plan, ProviderError>(ProviderError::ProtocolViolation(v)),
            Ok((t, m)) => match kind_of(t@) {
                None => r == Err::<Plan, ProviderError>(ProviderError::UnknownResourceType(t)),
                Some(k) => match input_problem(k, m@) {
                    Some((f, p)) => (r matches Err(e) && is_input_error(e, k, f, p)),
                    None => (r matches Ok(x) && plan_of(k, m@, x)),
                },
            },
        },
{
    let (t, m) = match parse_request_line(line) {
        Ok(tm) => tm,
        Err(v) => {
            return Err(ProviderError::ProtocolViolation(v));
        },
    };
    match select_handler(t) {
        Ok(ResourceKind::File) => match decode_file_input(&m) {
            Ok(x) => Ok(Plan::WriteFile(x)),
            Err(e) => Err(e),
        },
        Ok(ResourceKind::Exec) => match decode_exec_input(&m) {
            Ok(x) => Ok(Plan::Exec(x)),
            Err(e) => Err(e),
        },
        Err(e) => Err(e),
    }
}

/// The result of an `exec` resource, once its command has exited: the
/// captured output must be text, then the command must have succeeded.
pub fn exec_outcome(stdout: Result<String, String>, success: bool, status: String) -> (r: Result<
    Vec<(String, Json)>,
    ProviderError,
>)
    ensures
        stdout matches Err(m) ==> r == Err::<Vec<(String, Json)>, ProviderError>(
            ProviderError::HandlerFailure { message: m },
        ),
        stdout is Ok && !success ==> r == Err::<Vec<(String, Json)>, ProviderError>(
            ProviderError::HandlerFailure { message: status },
        ),
        stdout is Ok && success ==> (r matches Ok(o) && o@.len() == 1 && o@[0].0@ == "stdout"@
            && o@[0].1 == Json::Str(stdout->Ok_0)),
{
    match stdout {
        Err(m) => Err(ProviderError::HandlerFailure { message: m }),
        Ok(s) => if success {
            Ok(exec_output(s))
        } else {
            Err(ProviderError::HandlerFailure { message: status })
        },
    }
}

} // verus!
