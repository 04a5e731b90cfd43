//! The command line: what the arguments ask for, and the help text.

use vstd::prelude::*;
use vstd::slice::slice_subrange;
use vstd::string::*;

use crate::backend_kind::{backend_name, AsrBackendKind};
use crate::text::{join, join3, same};

verus! {

/// Where the audio comes from.
#[derive(Debug, PartialEq, Eq)]
pub enum SourceSpec {
    Device(Option<String>),
    File(String),
}

/// Where a transcript goes.
#[derive(Debug, PartialEq, Eq)]
pub enum TargetSpec {
    File(String),
    Stdout,
}

/// What one run of `pipe` reads, writes and recognizes with.
#[derive(Clone, Debug)]
pub struct PipeOptions {
    pub source: SourceSpec,
    pub targets: Vec<TargetSpec>,
    pub backend: AsrBackendKind,
}

/// What holds where the command line says nothing.
#[derive(Clone, Debug)]
pub struct AsrDefaults {
    pub backend: AsrBackendKind,
}

/// A request of the user.
#[derive(Debug)]
pub enum Command {
    Help,
    Version,
    Pipe { options: PipeOptions },
}

/// A command line that asks for nothing that the program can do.
#[derive(Clone, Debug)]
pub struct UsageError {
    pub message: String,
}

/// A [`SourceSpec`] with its text as sequences of characters.
pub enum SourceView {
    Device(Option<Seq<char>>),
    File(Seq<char>),
}

/// A [`TargetSpec`] with its text as a sequence of characters.
pub enum TargetView {
    File(Seq<char>),
    Stdout,
}

/// The model of [`PipeOptions`].
pub struct PipeView {
    pub source: SourceView,
    pub targets: Seq<TargetView>,
    pub backend: AsrBackendKind,
}

/// The model of [`Command`].
pub enum CommandView {
    Help,
    Version,
    Pipe(PipeView),
}

impl Clone for SourceSpec {
    fn clone(&self) -> (copy: Self)
        ensures
            copy == *self,
    {
        match self {
            SourceSpec::Device(Some(name)) => SourceSpec::Device(Some(name.clone())),
            SourceSpec::Device(None) => SourceSpec::Device(None),
            SourceSpec::File(path) => SourceSpec::File(path.clone()),
        }
    }
}

impl Clone for TargetSpec {
    fn clone(&self) -> (copy: Self)
        ensures
            copy == *self,
    {
        match self {
            TargetSpec::File(path) => TargetSpec::File(path.clone()),
            TargetSpec::Stdout => TargetSpec::Stdout,
        }
    }
}

impl View for SourceSpec {
    type V = SourceView;

    open spec fn view(&self) -> SourceView {
        match self {
            SourceSpec::Device(None) => SourceView::Device(None),
            SourceSpec::Device(Some(name)) => SourceView::Device(Some(name@)),
            SourceSpec::File(path) => SourceView::File(path@),
        }
    }
}

impl View for TargetSpec {
    type V = TargetView;

    open spec fn view(&self) -> TargetView {
        match self {
            TargetSpec::File(path) => TargetView::File(path@),
            TargetSpec::Stdout => TargetView::Stdout,
        }
    }
}

/// The models of a list of targets.
pub open spec fn target_views(targets: Seq<TargetSpec>) -> Seq<TargetView> {
    targets.map_values(|target: TargetSpec| target@)
}

impl View for PipeOptions {
    type V = PipeView;

    open spec fn view(&self) -> PipeView {
        PipeView {
            source: self.source@,
            targets: target_views(self.targets@),
            backend: self.backend,
        }
    }
}

impl View for Command {
    type V = CommandView;

    open spec fn view(&self) -> CommandView {
        match self {
            Command::Help => CommandView::Help,
            Command::Version => CommandView::Version,
            Command::Pipe { options } => CommandView::Pipe(options@),
        }
    }
}

/// The characters of each argument.
pub open spec fn arg_views(args: Seq<String>) -> Seq<Seq<char>> {
    args.map_values(|arg: String| arg@)
}

/// A value split at its first colon: what stands before it, and what stands
/// behind it, if there is a colon at all.
pub open spec fn typed_value(value: Seq<char>) -> (Seq<char>, Option<Seq<char>>) {
    match value.index_of_first(':') {
        Some(i) => (value.subrange(0, i), Some(value.subrange(i + 1, value.len() as int))),
        None => (value, None),
    }
}

/// The audio source that a value of `-i` names, or why it names none.
pub open spec fn source_of(value: Seq<char>) -> Result<SourceView, Seq<char>> {
    let (kind, rest) = typed_value(value);
    if kind == "file"@ {
        match rest {
            Some(path) if path.len() > 0 => Ok(SourceView::File(path)),
            _ => Err("-i file requires a path"@),
        }
    } else if kind == "device"@ {
        match rest {
            Some(name) if name.len() > 0 => Ok(SourceView::Device(Some(name))),
            _ => Ok(SourceView::Device(None)),
        }
    } else {
        Err("unsupported input type: "@ + kind)
    }
}

/// The target that a value of `-o` names, or why it names none.
pub open spec fn target_of(value: Seq<char>) -> Result<TargetView, Seq<char>> {
    let (kind, rest) = typed_value(value);
    if kind == "file"@ {
        match rest {
            Some(path) if path.len() > 0 => Ok(TargetView::File(path)),
            _ => Err("-o file requires a path"@),
        }
    } else if kind == "stdout"@ {
        match rest {
            Some(extra) if extra.len() > 0 => Err("-o stdout does not accept a value"@),
            _ => Ok(TargetView::Stdout),
        }
    } else {
        Err("unsupported output type: "@ + kind)
    }
}

/// The backend that a name stands for, or why it stands for none.
pub open spec fn backend_of(name: Seq<char>) -> Result<AsrBackendKind, Seq<char>> {
    if name == AsrBackendKind::Whisper.name() {
        Ok(AsrBackendKind::Whisper)
    } else if name == AsrBackendKind::Zipformer.name() {
        Ok(AsrBackendKind::Zipformer)
    } else {
        Err("unsupported backend: "@ + name)
    }
}

/// What the arguments of `pipe` have settled so far.
pub struct Settled {
    pub source: Option<SourceView>,
    pub targets: Seq<TargetView>,
    pub backend: AsrBackendKind,
}

/// What holds before the first argument of `pipe`.
pub open spec fn nothing_settled() -> Settled {
    Settled { source: None, targets: Seq::empty(), backend: AsrBackendKind::Whisper }
}

/// What the arguments settle on top of `so_far`, read from left to right, or the
/// complaint about the first of them that does not fit.
pub open spec fn settle(args: Seq<Seq<char>>, so_far: Settled) -> Result<Settled, Seq<char>>
    decreases args.len(),
{
    if args.len() == 0 {
        Ok(so_far)
    } else if args[0] == "-i"@ {
        if so_far.source is Some {
            Err("-i can only be used once"@)
        } else if args.len() == 1 {
            Err("-i requires file:<path> or device[:name]"@)
        } else {
            match source_of(args[1]) {
                Ok(source) => settle(args.skip(2), Settled { source: Some(source), ..so_far }),
                Err(complaint) => Err(complaint),
            }
        }
    } else if args[0] == "-o"@ {
        if args.len() == 1 {
            Err("-o requires file:<path> or stdout"@)
        } else {
            match target_of(args[1]) {
                Ok(target) => settle(
                    args.skip(2),
                    Settled { targets: so_far.targets.push(target), ..so_far },
                ),
                Err(complaint) => Err(complaint),
            }
        }
    } else if args[0] == "--backend"@ {
        if args.len() == 1 {
            Err("--backend requires a name"@)
        } else {
            match backend_of(args[1]) {
                Ok(backend) => settle(args.skip(2), Settled { backend, ..so_far }),
                Err(complaint) => Err(complaint),
            }
        }
    } else {
        Err("unexpected argument: "@ + args[0])
    }
}

/// The options that the arguments behind `pipe` give, or the complaint about them.
pub open spec fn pipe_of(args: Seq<Seq<char>>) -> Result<PipeView, Seq<char>> {
    match settle(args, nothing_settled()) {
        Err(complaint) => Err(complaint),
        Ok(settled) => match settled.source {
            None => Err("pipe requires -i file:<path> or -i device[:name]"@),
            Some(source) => if settled.targets.len() == 0 {
                Err("pipe requires at least one -o file:<path> or -o stdout"@)
            } else {
                Ok(PipeView { source, targets: settled.targets, backend: settled.backend })
            },
        },
    }
}

/// The command that a whole command line asks for, or the complaint about it.
pub open spec fn command_of(args: Seq<Seq<char>>) -> Result<CommandView, Seq<char>> {
    if args.len() == 0 || (args.len() == 1 && args[0] == "--help"@) {
        Ok(CommandView::Help)
    } else if args.len() == 1 && args[0] == "--version"@ {
        Ok(CommandView::Version)
    } else if args[0] == "pipe"@ {
        match pipe_of(args.skip(1)) {
            Ok(options) => Ok(CommandView::Pipe(options)),
            Err(complaint) => Err(complaint),
        }
    } else {
        Err("unknown command: "@ + args[0])
    }
}

/// A parser's answer: the value it was to find, or the complaint it was to raise.
pub open spec fn answers<T: View>(
    answer: Result<T, UsageError>,
    wanted: Result<<T as View>::V, Seq<char>>,
) -> bool {
    match wanted {
        Ok(value) => answer is Ok && answer->Ok_0@ == value,
        Err(complaint) => answer is Err && answer->Err_0.message@ == complaint,
    }
}

impl Default for AsrDefaults {
    fn default() -> (defaults: Self)
        ensures
            defaults.backend == AsrBackendKind::Whisper,
    {
        AsrDefaults { backend: AsrBackendKind::Whisper }
    }
}

/// A usage error with the given text.
pub fn invalid(message: String) -> (error: UsageError)
    ensures
        error.message == message,
{
    UsageError { message }
}

/// Splits a value at its first colon.
pub fn split_typed_value(value: &str) -> (parts: (&str, Option<&str>))
    ensures
        parts.0@ == typed_value(value@).0,
        (parts.1 is Some) == (typed_value(value@).1 is Some),
        parts.1 is Some ==> parts.1->0@ == typed_value(value@).1->0,
{
    let n: usize = value.unicode_len();
    let mut i: usize = 0;
    proof {
        value@.index_of_first_ensures(':');
    }
    while i < n
        invariant
            n == value@.len(),
            i <= n,
            forall|j: int| 0 <= j < i ==> value@[j] != ':',
            match value@.index_of_first(':') {
                Some(index) => {
                    &&& 0 <= index < value@.len()
                    &&& value@[index] == ':'
                    &&& forall|j: int| 0 <= j < index < value@.len() ==> value@[j] != ':'
                },
                None => !value@.contains(':'),
            },
        decreases n - i,
    {
        if value.get_char(i) == ':' {
            assert(value@.contains(':'));
            assert(value@.index_of_first(':') == Some(i as int));
            return (value.substring_char(0, i), Some(value.substring_char(i + 1, n)));
        }
        i = i + 1;
    }
    assert(value@.index_of_first(':') is None);
    (value, None)
}

/// The audio source that a value of `-i` names.
pub fn parse_source(value: &str) -> (answer: Result<SourceSpec, UsageError>)
    ensures
        answers(answer, source_of(value@)),
{
    let (kind, rest) = split_typed_value(value);
    if same(kind, "file") {
        match rest {
            Some(path) if !path.is_empty() => Ok(SourceSpec::File(path.to_owned())),
            _ => Err(invalid("-i file requires a path".to_owned())),
        }
    } else if same(kind, "device") {
        match rest {
            Some(name) if !name.is_empty() => Ok(SourceSpec::Device(Some(name.to_owned()))),
            _ => Ok(SourceSpec::Device(None)),
        }
    } else {
        Err(invalid(join("unsupported input type: ", kind)))
    }
}

/// The target that a value of `-o` names.
pub fn parse_target(value: &str) -> (answer: Result<TargetSpec, UsageError>)
    ensures
        answers(answer, target_of(value@)),
{
    let (kind, rest) = split_typed_value(value);
    if same(kind, "file") {
        match rest {
            Some(path) if !path.is_empty() => Ok(TargetSpec::File(path.to_owned())),
            _ => Err(invalid("-o file requires a path".to_owned())),
        }
    } else if same(kind, "stdout") {
        match rest {
            Some(extra) if !extra.is_empty() => Err(
                invalid("-o stdout does not accept a value".to_owned()),
            ),
            _ => Ok(TargetSpec::Stdout),
        }
    } else {
        Err(invalid(join("unsupported output type: ", kind)))
    }
}

/// The backend that a name stands for.
pub fn parse_backend(name: &str) -> (answer: Result<AsrBackendKind, UsageError>)
    ensures
        match backend_of(name@) {
            Ok(backend) => answer == Ok::<AsrBackendKind, UsageError>(backend),
            Err(complaint) => answer is Err && answer->Err_0.message@ == complaint,
        },
{
    if same(name, "whisper") {
        Ok(AsrBackendKind::Whisper)
    } else if same(name, "zipformer") {
        Ok(AsrBackendKind::Zipformer)
    } else {
        Err(invalid(join("unsupported backend: ", name)))
    }
}

/// The options that the arguments behind `pipe` give.
pub fn parse_pipe(args: &[String]) -> (answer: Result<Command, UsageError>)
    ensures
        match pipe_of(arg_views(args@)) {
            Ok(options) => answer is Ok && answer->Ok_0@ == CommandView::Pipe(options),
            Err(complaint) => answer is Err && answer->Err_0.message@ == complaint,
        },
{
    let defaults = AsrDefaults::default();
    let mut source: Option<SourceSpec> = None;
    let mut targets: Vec<TargetSpec> = Vec::new();
    let mut backend = defaults.backend;
    let ghost whole = arg_views(args@);
    let ghost mut so_far = nothing_settled();
    assert(whole.skip(0) =~= whole);
    assert(target_views(targets@) =~= so_far.targets);

    let mut i: usize = 0;
    while i < args.len()
        invariant
            whole == arg_views(args@),
            i <= args@.len(),
            settle(whole, nothing_settled()) == settle(whole.skip(i as int), so_far),
            (source is Some) == (so_far.source is Some),
            source is Some ==> source->0@ == so_far.source->0,
            target_views(targets@) == so_far.targets,
            backend == so_far.backend,
        decreases args.len() - i,
    {
        let ghost rest = whole.skip(i as int);
        assert(rest[0] == whole[i as int]);
        assert(rest.len() > 1 ==> rest[1] == whole[i + 1]);
        assert(rest.len() > 1 ==> rest.skip(2) =~= whole.skip(i + 2));
        let flag = args[i].as_str();
        if same(flag, "-i") {
            if source.is_some() {
                return Err(invalid("-i can only be used once".to_owned()));
            }
            i = i + 1;
            if i == args.len() {
                return Err(invalid("-i requires file:<path> or device[:name]".to_owned()));
            }
            match parse_source(args[i].as_str()) {
                Ok(value) => {
                    proof {
                        so_far = Settled { source: Some(value@), ..so_far };
                    }
                    source = Some(value);
                },
                Err(error) => return Err(error),
            }
        } else if same(flag, "-o") {
            i = i + 1;
            if i == args.len() {
                return Err(invalid("-o requires file:<path> or stdout".to_owned()));
            }
            match parse_target(args[i].as_str()) {
                Ok(value) => {
                    let ghost before = targets@;
                    proof {
                        so_far = Settled { targets: so_far.targets.push(value@), ..so_far };
                    }
                    targets.push(value);
                    assert(target_views(targets@) =~= target_views(before).push(value@));
                },
                Err(error) => return Err(error),
            }
        } else if same(flag, "--backend") {
            i = i + 1;
            if i == args.len() {
                return Err(invalid("--backend requires a name".to_owned()));
            }
            match parse_backend(args[i].as_str()) {
                Ok(value) => {
                    proof {
                        so_far = Settled { backend: value, ..so_far };
                    }
                    backend = value;
                },
                Err(error) => return Err(error),
            }
        } else {
            return Err(invalid(join("unexpected argument: ", flag)));
        }
        i = i + 1;
    }

    match source {
        None => Err(invalid("pipe requires -i file:<path> or -i device[:name]".to_owned())),
        Some(source) => {
            if targets.len() == 0 {
                return Err(
                    invalid("pipe requires at least one -o file:<path> or -o stdout".to_owned()),
                );
            }
            Ok(Command::Pipe { options: PipeOptions { source, targets, backend } })
        },
    }
}

/// The command that a whole command line asks for.
pub fn parse_command(args: Vec<String>) -> (answer: Result<Command, UsageError>)
    ensures
        answers(answer, command_of(arg_views(args@))),
{
    if args.len() == 0 {
        return Ok(Command::Help);
    }
    let first = args[0].as_str();
    if args.len() == 1 && same(first, "--help") {
        return Ok(Command::Help);
    }
    if args.len() == 1 && same(first, "--version") {
        return Ok(Command::Version);
    }
    if same(first, "pipe") {
        let rest = slice_subrange(args.as_slice(), 1, args.len());
        assert(arg_views(rest@) =~= arg_views(args@).skip(1));
        return parse_pipe(rest);
    }
    Err(invalid(join("unknown command: ", first)))
}

/// The lines of the help text.
pub open spec fn help_lines() -> Seq<Seq<char>> {
    seq![
        "Usage:"@,
        "  airs-asr --help"@,
        "  airs-asr --version"@,
        "  airs-asr pipe -i <source> -o <target> [-o <target>...] [--backend <name>]"@,
        ""@,
        "Source:"@,
        "  -i file:<path>    Audio file"@,
        "  -i device         Default microphone device"@,
        "  -i device:<name>  Named microphone device"@,
        ""@,
        "Target:"@,
        "  -o file:<path>    Text file"@,
        "  -o stdout         Standard output"@,
        ""@,
        "Defaults: backend="@ + AsrBackendKind::Whisper.name() + "."@,
    ]
}

/// The help text, line by line.
pub fn help() -> (lines: Vec<String>)
    ensures
        arg_views(lines@) == help_lines(),
{
    let defaults = AsrDefaults::default();
    let mut lines: Vec<String> = Vec::new();
    lines.push("Usage:".to_owned());
    lines.push("  airs-asr --help".to_owned());
    lines.push("  airs-asr --version".to_owned());
    lines.push(
        "  airs-asr pipe -i <source> -o <target> [-o <target>...] [--backend <name>]".to_owned(),
    );
    lines.push("".to_owned());
    lines.push("Source:".to_owned());
    lines.push("  -i file:<path>    Audio file".to_owned());
    lines.push("  -i device         Default microphone device".to_owned());
    lines.push("  -i device:<name>  Named microphone device".to_owned());
    lines.push("".to_owned());
    lines.push("Target:".to_owned());
    lines.push("  -o file:<path>    Text file".to_owned());
    lines.push("  -o stdout         Standard output".to_owned());
    lines.push("".to_owned());
    lines.push(join3("Defaults: backend=", backend_name(defaults.backend), "."));
    assert(arg_views(lines@) =~= help_lines());
    lines
}

} // verus!
