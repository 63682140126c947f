//! The commands of the tool and how a lone file argument picks one.

use vstd::prelude::*;
use crate::text::{starts_with, lacks, str_starts_with, str_eq, last_index};

verus! {

/// A command of the tool.
pub enum Command {
    /// Create, view or edit a `.prtgn` text file.
    Init { filename: String },
    /// Convert or play `.wav` audio.
    Wav { filename: String, convert: bool, play: bool },
    /// Convert or play `.flac` audio.
    Flac { filename: String, convert: bool, play: bool },
    /// Show a random fox picture.
    Fox,
}

/// The abstract command.
pub ghost enum CommandView {
    Init(Seq<char>),
    Wav(Seq<char>, bool, bool),
    Flac(Seq<char>, bool, bool),
    Fox,
}

impl View for Command {
    type V = CommandView;

    open spec fn view(&self) -> CommandView {
        match self {
            Command::Init { filename } => CommandView::Init(filename@),
            Command::Wav { filename, convert, play } => CommandView::Wav(filename@, *convert, *play),
            Command::Flac { filename, convert, play } => CommandView::Flac(filename@, *convert, *play),
            Command::Fox => CommandView::Fox,
        }
    }
}

/// The view of an optional string.
pub open spec fn opt_view(o: Option<String>) -> Option<Seq<char>> {
    match o {
        Some(s) => Some(s@),
        None => None,
    }
}

/// The view of an optional command.
pub open spec fn opt_command(o: Option<Command>) -> Option<CommandView> {
    match o {
        Some(c) => Some(c@),
        None => None,
    }
}

/// `s` names a subcommand.
pub open spec fn is_subcommand(s: Seq<char>) -> bool {
    s == "init"@ || s == "wav"@ || s == "flac"@ || s == "fox"@
}

/// The command that a lone file argument `arg` with extension `ext` opens:
/// a `.prtgn` file is edited, a `.prtgn_wav` or `.prtgn_flac` file played.
pub open spec fn command_for(arg: Seq<char>, ext: Option<Seq<char>>) -> Option<CommandView> {
    match ext {
        Some(e) => if e == "prtgn"@ {
            Some(CommandView::Init(arg))
        } else if e == "prtgn_wav"@ {
            Some(CommandView::Wav(arg, false, true))
        } else if e == "prtgn_flac"@ {
            Some(CommandView::Flac(arg, false, true))
        } else {
            None
        },
        None => None,
    }
}

/// A lone argument that is a file rather than an option or a subcommand.
pub open spec fn is_file_argument(args: Seq<String>) -> bool {
    &&& args.len() == 2
    &&& !starts_with(args[1]@, "-"@)
    &&& !is_subcommand(args[1]@)
}

/// The file a command opens, if it opens one.
pub open spec fn command_file(c: CommandView) -> Option<Seq<char>> {
    match c {
        CommandView::Init(f) => Some(f),
        CommandView::Wav(f, _, _) => Some(f),
        CommandView::Flac(f, _, _) => Some(f),
        CommandView::Fox => None,
    }
}

/// A lone file argument opens that very file: whenever it opens a command,
/// the command's file is the argument, and an audio command only plays it.
/// Which command comes from the extension alone: `prtgn` edits, `prtgn_wav`
/// plays `.wav` text, `prtgn_flac` plays `.flac` text, and no other
/// extension, nor none, opens anything.
pub proof fn lemma_command_opens_argument(arg: Seq<char>, ext: Option<Seq<char>>)
    ensures
        command_for(arg, ext) matches Some(c) ==> command_file(c) == Some(arg),
        command_for(arg, ext) matches Some(CommandView::Wav(_, convert, play)) ==> !convert && play,
        command_for(arg, ext) matches Some(CommandView::Flac(_, convert, play)) ==> !convert && play,
        command_for(arg, ext) matches Some(CommandView::Init(_)) <==> ext == Some("prtgn"@),
        command_for(arg, ext) matches Some(CommandView::Wav(_, _, _)) <==> ext == Some("prtgn_wav"@),
        command_for(arg, ext) matches Some(CommandView::Flac(_, _, _)) <==> ext == Some("prtgn_flac"@),
        command_for(arg, ext) is None <==> !(ext == Some("prtgn"@) || ext == Some("prtgn_wav"@) || ext == Some(
            "prtgn_flac"@,
        )),
{
    reveal_strlit("prtgn");
    reveal_strlit("prtgn_wav");
    reveal_strlit("prtgn_flac");
    assert("prtgn"@.len() == 5 && "prtgn_wav"@.len() == 9 && "prtgn_flac"@.len() == 10);
    assert("prtgn"@ != "prtgn_wav"@ && "prtgn"@ != "prtgn_flac"@ && "prtgn_wav"@ != "prtgn_flac"@);
}

/// The command for a lone file argument with the given extension.
pub fn command_for_extension(arg: String, ext: Option<String>) -> (r: Option<Command>)
    ensures
        opt_command(r) == command_for(arg@, opt_view(ext)),
        opt_command(r) matches Some(c) ==> command_file(c) == Some(arg@),
{
    proof {
        lemma_command_opens_argument(arg@, opt_view(ext));
    }
    match ext {
        Some(e) => {
            if str_eq(e.as_str(), "prtgn") {
                Some(Command::Init { filename: arg })
            } else if str_eq(e.as_str(), "prtgn_wav") {
                Some(Command::Wav { filename: arg, convert: false, play: true })
            } else if str_eq(e.as_str(), "prtgn_flac") {
                Some(Command::Flac { filename: arg, convert: false, play: true })
            } else {
                None
            }
        },
        None => None,
    }
}

/// `.` followed by `ext` stands somewhere in `path`.
pub open spec fn has_dotted(path: Seq<char>, ext: Seq<char>) -> bool {
    exists|i: int| 0 <= i && i + ext.len() + 1 <= path.len() && #[trigger] path.subrange(i, i + ext.len() + 1) == seq!['.'] + ext
}

/// The last `/`-separated piece of `p`: all of it when it has no `/`.
pub open spec fn last_piece(p: Seq<char>) -> Seq<char> {
    p.skip(last_index(p, '/') + 1)
}

/// The extension of the file name `q`: the text after its last dot, and
/// none when it has no dot or its only dot starts the name.
pub open spec fn extension_of_name(q: Seq<char>) -> Option<Seq<char>> {
    if last_index(q, '.') > 0 {
        Some(q.skip(last_index(q, '.') + 1))
    } else {
        None
    }
}

/// `p` names its file the same way on every platform: it holds no `\\`
/// and no `:` (so no drive), does not start with `//` (so no network
/// share), and its last `/`-separated piece, which is then the file name,
/// is neither empty nor `.` nor `..`.
pub open spec fn simple_path(p: Seq<char>) -> bool {
    &&& lacks(p, '\\')
    &&& lacks(p, ':')
    &&& !starts_with(p, seq!['/', '/'])
    &&& last_piece(p).len() > 0
    &&& last_piece(p) != seq!['.']
    &&& last_piece(p) != seq!['.', '.']
}

/// What holds of an extension that `Path::extension` gives for `path`: it
/// is the part of the file name after its last dot, so it holds no dot and
/// stands in `path` after a dot, and a path without a dot has none. For a
/// simple path it is the extension of the last piece.
pub open spec fn extension_of(path: Seq<char>, ext: Option<Seq<char>>) -> bool {
    &&& ext matches Some(e) ==> lacks(e, '.') && has_dotted(path, e)
    &&& lacks(path, '.') ==> ext is None
    &&& simple_path(path) ==> ext == extension_of_name(last_piece(path))
}

/// The extension of the file that `path` names (`Path::extension`, as
/// text). `/` separates the components of a path on every platform and the
/// file name is the last one; `\\`, a drive or a network share are read
/// differently on some platforms, so for such a path, or one that ends in
/// `/`, `.` or `..`, only the first two facts of `extension_of` are stated.
#[verifier::external_body]
fn path_extension(path: &str) -> (r: Option<String>)
    ensures
        extension_of(path@, opt_view(r)),
{
    std::path::Path::new(path).extension().and_then(|e| e.to_str()).map(|e| e.to_owned())
}

/// The command that the arguments (program name first) open without
/// parsing options: with one argument that is neither an option nor a
/// subcommand, the command for its extension.
pub fn shortcut_command(args: &Vec<String>) -> (r: Option<Command>)
    ensures
        !is_file_argument(args@) ==> r is None,
        is_file_argument(args@) ==> exists|ext: Option<Seq<char>>|
            #![trigger command_for(args@[1]@, ext)]
            extension_of(args@[1]@, ext) && opt_command(r) == command_for(args@[1]@, ext),
        is_file_argument(args@) && lacks(args@[1]@, '.') ==> r is None,
        is_file_argument(args@) && simple_path(args@[1]@)
            ==> opt_command(r) == command_for(args@[1]@, extension_of_name(last_piece(args@[1]@))),
        opt_command(r) matches Some(c) ==> command_file(c) == Some(args@[1]@),
{
    if args.len() != 2 {
        return None;
    }
    let arg = &args[1];
    if str_starts_with(arg.as_str(), "-") {
        return None;
    }
    if str_eq(arg.as_str(), "init") || str_eq(arg.as_str(), "wav") || str_eq(arg.as_str(), "flac")
        || str_eq(arg.as_str(), "fox") {
        return None;
    }
    let ext = path_extension(arg.as_str());
    let ghost e = opt_view(ext);
    let r = command_for_extension(arg.clone(), ext);
    assert(extension_of(args@[1]@, e) && opt_command(r) == command_for(args@[1]@, e));
    proof {
        lemma_command_opens_argument(args@[1]@, e);
    }
    r
}

} // verus!
