use vstd::prelude::*;

verus! {

/// The tool that runs a shell command.
pub struct Bash;

/// The arguments of the `bash` tool.
pub struct BashArgs {
    pub command: String,
}

/// The `bash` tool could not start its process.
pub struct BashError;

/// The tool that reads a file.
pub struct ReadFile;

/// The arguments of the `read` tool.
pub struct ReadFileArgs {
    pub path: String,
}

/// The `read` tool could not read its file.
pub struct FileError;

/// The text that a byte string decodes to, invalid sequences replaced.
pub uninterp spec fn utf8_lossy(b: Seq<u8>) -> Seq<char>;

/// Relies on String::from_utf8_lossy: the text depends on the bytes alone.
#[verifier::external_body]
fn decode_lossy(b: &[u8]) -> (r: String)
    ensures
        r@ == utf8_lossy(b@),
{
    String::from_utf8_lossy(b).into_owned()
}

/// What the `bash` tool reports for a run whose outputs read `out` and `err`:
/// the standard output, followed by a newline and the error output where there
/// is any.
pub open spec fn combined(out: Seq<char>, err: Seq<char>) -> Seq<char> {
    if err.len() == 0 {
        out
    } else {
        out + "\n"@ + err
    }
}

impl Bash {
    /// The name under which the model calls this tool.
    pub fn name() -> (r: &'static str)
        ensures
            r@ == "bash"@,
    {
        "bash"
    }

    /// What the model is told this tool does.
    pub fn description() -> (r: &'static str)
        ensures
            r@ == "Run a bash command"@,
    {
        "Run a bash command"
    }

    /// The tool's report from the texts of a run's standard and error output.
    pub fn combine_output(stdout: &str, stderr: &str) -> (r: String)
        ensures
            r@ == combined(stdout@, stderr@),
    {
        let mut r = stdout.to_owned();
        if !stderr.is_empty() {
            r.append("\n");
            r.append(stderr);
        }
        r
    }

    /// The tool's report from the raw bytes of a run's standard and error
    /// output.
    pub fn output(stdout: &[u8], stderr: &[u8]) -> (r: String)
        ensures
            r@ == combined(utf8_lossy(stdout@), utf8_lossy(stderr@)),
    {
        let out = decode_lossy(stdout);
        let err = decode_lossy(stderr);
        Bash::combine_output(out.as_str(), err.as_str())
    }
}

impl BashError {
    /// The message of this error.
    pub fn message(&self) -> (r: &'static str)
        ensures
            r@ == "Bash command error"@,
    {
        "Bash command error"
    }
}

impl ReadFile {
    /// The name under which the model calls this tool.
    pub fn name() -> (r: &'static str)
        ensures
            r@ == "read"@,
    {
        "read"
    }

    /// What the model is told this tool does.
    pub fn description() -> (r: &'static str)
        ensures
            r@ == "Read the contents of a file"@,
    {
        "Read the contents of a file"
    }
}

impl FileError {
    /// The message of this error.
    pub fn message(&self) -> (r: &'static str)
        ensures
            r@ == "File operation error"@,
    {
        "File operation error"
    }
}

} // verus!
