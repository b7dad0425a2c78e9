//! Installer targets: the macOS bundle and package, and the Windows NSIS
//! installers, together with what they share.

pub mod osx;
pub mod win;

use vstd::prelude::*;
use crate::text::{chars_of, push_str, string_from_chars};

verus! {

/// A program to run, the arguments to run it with, and the directory it
/// runs in.
pub struct Invocation {
    pub program: String,
    pub args: Vec<String>,
    pub dir: String,
}

/// One step of making an installer. The steps of a plan are carried out in
/// order; a step that fails (a tool that exits unsuccessfully included)
/// ends the build, so no later step is taken.
pub enum Step {
    /// Create this directory and its missing parents.
    CreateDirAll(String),
    /// Remove this directory and all it holds, if it is there.
    RemoveDirAll(String),
    /// Copy the input file of the build (the speller archive) to this path.
    CopyInput(String),
    /// Write this file with these contents.
    WriteFile(String, String),
    /// Run this tool and wait until it exits.
    Run(Invocation),
}

/// Whether `s` creates the directory `path`.
pub open spec fn is_create_dir(s: Step, path: Seq<char>) -> bool {
    s matches Step::CreateDirAll(p) && p@ == path
}

/// Whether `s` removes the directory `path`.
pub open spec fn is_remove_dir(s: Step, path: Seq<char>) -> bool {
    s matches Step::RemoveDirAll(p) && p@ == path
}

/// Whether `s` copies the input file to `path`.
pub open spec fn is_copy_input(s: Step, path: Seq<char>) -> bool {
    s matches Step::CopyInput(p) && p@ == path
}

/// Whether `s` writes `contents` into the file `path`.
pub open spec fn is_write_file(s: Step, path: Seq<char>, contents: Seq<char>) -> bool {
    s matches Step::WriteFile(p, c) && p@ == path && c@ == contents
}

/// Whether `i` runs `program` with `args` in the directory `dir`.
pub open spec fn invokes(i: Invocation, program: Seq<char>, args: Seq<Seq<char>>, dir: Seq<char>) -> bool {
    &&& i.program@ == program
    &&& args_view(i.args@) == args
    &&& i.dir@ == dir
}

/// Whether `s` runs `program` with `args` in the directory `dir`.
pub open spec fn is_run(s: Step, program: Seq<char>, args: Seq<Seq<char>>, dir: Seq<char>) -> bool {
    s matches Step::Run(i) && invokes(i, program, args, dir)
}

/// The arguments of a command line as character sequences.
pub open spec fn args_view(args: Seq<String>) -> Seq<Seq<char>> {
    args.map_values(|a: String| a@)
}

/// `dir` joined with `name` as a path with `/` separators: `name` when it
/// is absolute, `dir` followed by `name` when `dir` is empty or already ends
/// with `/`, and `dir`, `/`, `name` otherwise.
pub open spec fn join_path(dir: Seq<char>, name: Seq<char>) -> Seq<char> {
    if name.len() > 0 && name[0] == '/' {
        name
    } else if dir.len() == 0 || dir.last() == '/' {
        dir + name
    } else {
        dir + seq!['/'] + name
    }
}

/// A relative name joined onto `dir` lies inside `dir`: the joined path
/// starts with `dir`.
pub proof fn lemma_join_inside(dir: Seq<char>, name: Seq<char>)
    requires
        name.len() > 0 ==> name[0] != '/',
    ensures
        join_path(dir, name).len() >= dir.len(),
        join_path(dir, name).take(dir.len() as int) == dir,
{
    let j = join_path(dir, name);
    if dir.len() == 0 || dir.last() == '/' {
        assert(j.take(dir.len() as int) =~= dir);
    } else {
        assert(j.take(dir.len() as int) =~= dir);
    }
}

/// Joins `name` onto the directory `dir`, as `Path::join` does with `/` as
/// the separator.
pub fn join(dir: &str, name: &str) -> (r: String)
    ensures
        r@ == join_path(dir@, name@),
{
    let name_chars = chars_of(name);
    if name_chars.len() > 0 && name_chars[0] == '/' {
        return string_from_chars(name_chars.as_slice());
    }
    let mut out = chars_of(dir);
    if out.len() > 0 && out[out.len() - 1] != '/' {
        out.push('/');
    }
    push_str(&mut out, name);
    string_from_chars(out.as_slice())
}

/// The `String` holding `s`.
pub fn owned(s: &str) -> (r: String)
    ensures
        r@ == s@,
{
    s.to_owned()
}

} // verus!
