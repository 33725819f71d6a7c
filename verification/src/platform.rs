//! The systems whose native tools the engine drives, and the plain values
//! that pass between the engine and whoever runs those tools.

use crate::text::texts;
use vstd::prelude::*;
use vstd::string::*;

verus! {

/// An operating system with tools of its own for disks and filesystems.
#[derive(Debug, Clone, Copy, PartialEq, Eq, Structural)]
pub enum Platform {
    Windows,
    MacOS,
    Linux,
}

/// One call of a native tool: the program, its arguments, and the script it
/// is to read, where it reads one.
///
/// Whoever runs the call writes the script to a file of the given name in
/// the temporary directory and hands the file's path to the program as one
/// more argument, after those listed.
#[derive(Debug, Clone)]
pub struct DriverCommand {
    pub program: String,
    pub args: Vec<String>,
    pub script: Option<Script>,
}

/// A script for a native tool.
#[derive(Debug, Clone)]
pub struct Script {
    pub file_name: String,
    pub content: String,
}

/// A call of a native tool as a mathematical value.
pub struct CommandView {
    pub program: Seq<char>,
    pub args: Seq<Seq<char>>,
    pub script: Option<(Seq<char>, Seq<char>)>,
}

impl View for DriverCommand {
    type V = CommandView;

    open spec fn view(&self) -> CommandView {
        CommandView {
            program: self.program@,
            args: texts(self.args@),
            script: match self.script {
                Some(s) => Some((s.file_name@, s.content@)),
                None => None,
            },
        }
    }
}

/// What a native tool left behind: whether it reported success, its exit
/// code where it has one, and what it printed.
#[derive(Debug, Clone)]
pub struct CommandOutput {
    pub success: bool,
    pub exit_code: Option<i32>,
    pub stdout: String,
    pub stderr: String,
}

/// A call without a script.
pub open spec fn plain_command(program: Seq<char>, args: Seq<Seq<char>>) -> CommandView {
    CommandView { program, args, script: None }
}

/// A call of `diskpart` that reads the given script.
pub open spec fn diskpart_command(file_name: Seq<char>, content: Seq<char>) -> CommandView {
    CommandView { program: "diskpart"@, args: seq!["/s"@], script: Some((file_name, content)) }
}

/// Appends the text of `arg` to `args`.
pub fn push_arg(args: &mut Vec<String>, arg: &str)
    ensures
        texts(final(args)@) == texts(old(args)@) + seq![arg@],
{
    args.push(String::from_str(arg));
    assert(texts(args@) =~= texts(old(args)@) + seq![arg@]);
}

/// Makes a call of `program` without arguments or script.
pub fn command(program: &str) -> (c: DriverCommand)
    ensures
        c@ == plain_command(program@, Seq::empty()),
{
    let args: Vec<String> = Vec::new();
    assert(texts(args@) =~= Seq::empty());
    DriverCommand { program: String::from_str(program), args, script: None }
}

/// Makes a call of `program` with the given arguments.
pub fn command_with(program: &str, args: Vec<String>) -> (c: DriverCommand)
    ensures
        c@ == plain_command(program@, texts(args@)),
{
    DriverCommand { program: String::from_str(program), args, script: None }
}

/// Makes a call of `diskpart` that reads the given script.
pub fn diskpart(file_name: &str, content: String) -> (c: DriverCommand)
    ensures
        c@ == diskpart_command(file_name@, content@),
{
    let args = args1("/s");
    DriverCommand {
        program: String::from_str("diskpart"),
        args,
        script: Some(Script { file_name: String::from_str(file_name), content }),
    }
}

/// Makes a list of one argument.
pub fn args1(a: &str) -> (args: Vec<String>)
    ensures
        texts(args@) == seq![a@],
{
    let mut args: Vec<String> = Vec::new();
    args.push(String::from_str(a));
    assert(texts(args@) =~= seq![a@]);
    args
}

/// Makes a list of two arguments.
pub fn args2(a: &str, b: &str) -> (args: Vec<String>)
    ensures
        texts(args@) == seq![a@, b@],
{
    let mut args: Vec<String> = Vec::new();
    args.push(String::from_str(a));
    args.push(String::from_str(b));
    assert(texts(args@) =~= seq![a@, b@]);
    args
}

/// Makes a list of three arguments.
pub fn args3(a: &str, b: &str, c: &str) -> (args: Vec<String>)
    ensures
        texts(args@) == seq![a@, b@, c@],
{
    let mut args: Vec<String> = Vec::new();
    args.push(String::from_str(a));
    args.push(String::from_str(b));
    args.push(String::from_str(c));
    assert(texts(args@) =~= seq![a@, b@, c@]);
    args
}

/// Makes a list of four arguments.
pub fn args4(a: &str, b: &str, c: &str, d: &str) -> (args: Vec<String>)
    ensures
        texts(args@) == seq![a@, b@, c@, d@],
{
    let mut args: Vec<String> = Vec::new();
    args.push(String::from_str(a));
    args.push(String::from_str(b));
    args.push(String::from_str(c));
    args.push(String::from_str(d));
    assert(texts(args@) =~= seq![a@, b@, c@, d@]);
    args
}

} // verus!
