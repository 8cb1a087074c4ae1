//! The run itself: which step comes next, given what the last one came to.
//!
//! A run resolves the download, fetches the list of checksums, makes sure the
//! archive is there and is the one published, unpacks it, hands the unpacked
//! tree to the configured account, links it, makes a first save file where
//! asked to, and starts the configured command. The library performs none of
//! these steps. It hands the driver one [`Action`] at a time and takes back
//! the [`Event`] that the action came to, through [`Run::step`] or through
//! the step that the event belongs to, by its name. A step taken out of turn
//! ends the run.

use crate::args::{Args, ArgsView, text_view};
use crate::error::{AppResult, ErrorView, IoKind, NotFound, RuntimeError, io_error};
use crate::hash::{file_hash, find_file_hash, hash_verdict, verify_file_hash};
use crate::http::{get_redirect_url, redirect_url};
use crate::text::{
    CharClass, append, chars_of, decimal, in_class, join_path, joined, lemma_decimal_injective,
    lemma_span, lemma_span_back, scan, scan_back, span, span_back, texts, to_decimal,
};
use crate::user::User;
use vstd::prelude::*;
use vstd::string::{StrSliceExecFns, StringExecFns};

verus! {

/// Where the latest stable release of the server is asked for: the answer
/// is a redirect to the archive.
pub const REDIRECT_URL: &'static str = "https://factorio.com/get-download/stable/headless/linux64";

/// Where the checksums of all published archives are listed.
pub const CHECKSUM_URL: &'static str = "https://www.factorio.com/download/sha256sums/";

/// The name under which the archive at `url` is kept: the last segment of
/// the path of `url`. The path is what stands before the first question
/// mark of `url`, and its last segment is what follows its last slash. A
/// URL whose path holds no slash has no such name, nor has a URL without a
/// question mark, and the name cannot be empty.
pub open spec fn download_filename(url: Seq<char>) -> Result<Seq<char>, ErrorView> {
    let path = url.take(span(url, CharClass::Is('?'), false));
    let n = span_back(path, CharClass::Is('/'), false);
    if n == path.len() {
        Err(io_error(IoKind::NotFound, "no '/' found"@))
    } else if path.len() == url.len() {
        Err(io_error(IoKind::NotFound, "no '?' found"@))
    } else if n == 0 {
        Err(io_error(IoKind::NotFound, "no filename found"@))
    } else {
        Ok(path.skip(path.len() - n))
    }
}

/// A derived name is not empty and holds neither a slash nor a question
/// mark. It stands in the URL between a slash and a question mark, and it
/// ends at the first question mark of the URL: what follows that mark has
/// no part in the name.
pub proof fn lemma_download_filename(url: Seq<char>)
    requires
        download_filename(url) is Ok,
    ensures
        ({
            let name = download_filename(url)->Ok_0;
            &&& name.len() > 0
            &&& !name.contains('/')
            &&& !name.contains('?')
            &&& exists|at: int|
                {
                    &&& 0 < at
                    &&& at + name.len() < url.len()
                    &&& url[at - 1] == '/'
                    &&& #[trigger] url.subrange(at, at + name.len()) == name
                    &&& url[at + name.len()] == '?'
                    &&& !url.take(at + name.len()).contains('?')
                }
        }),
{
    let q = span(url, CharClass::Is('?'), false);
    let path = url.take(q);
    let n = span_back(path, CharClass::Is('/'), false);
    let at = path.len() - n;
    let name = path.skip(at);
    lemma_span(url, CharClass::Is('?'), false);
    lemma_span_back(path, CharClass::Is('/'), false);
    assert(0 < n < path.len() && q < url.len());
    assert(download_filename(url) == Ok::<Seq<char>, ErrorView>(name));
    assert forall|j: int| 0 <= j < path.len() implies path[j] != '?' by {
        assert(path[j] == url[j]);
        assert(!in_class(CharClass::Is('?'), url[j]));
    }
    assert forall|j: int| 0 <= j < name.len() implies name[j] != '/' && name[j] != '?' by {
        assert(name[j] == path[at + j]);
        assert(!in_class(CharClass::Is('/'), path[at + j]));
    }
    assert(url[at - 1] == '/') by {
        assert(path[at - 1] == url[at - 1]);
        assert(in_class(CharClass::Is('/'), path[path.len() - n - 1]));
    }
    assert(url[q] == '?') by {
        assert(in_class(CharClass::Is('?'), url[q]));
    }
    assert(url.subrange(at, at + name.len()) =~= name);
    assert(url.take(at + name.len()) =~= path);
    assert(at + name.len() == q);
}

/// Derives the name under which the archive at `url` is kept.
pub fn parse_download_filename(url: &str) -> (parsed: AppResult<String>)
    ensures
        match download_filename(url@) {
            Ok(name) => parsed matches Ok(text) && text@ == name,
            Err(error) => parsed matches Err(e) && e@ == error,
        },
{
    let chars = chars_of(url);
    let len = chars.len();
    let end = scan(&chars, 0, len, CharClass::Is('?'), false);
    assert(chars@.subrange(0, len as int) =~= chars@);
    let at = scan_back(&chars, 0, end, CharClass::Is('/'), false);
    assert(chars@.subrange(0, end as int) =~= chars@.take(end as int));
    if at == 0 {
        return Err(RuntimeError::from(NotFound::new("no '/' found")));
    }
    if end == len {
        return Err(RuntimeError::from(NotFound::new("no '?' found")));
    }
    if end == at {
        return Err(RuntimeError::from(NotFound::new("no filename found")));
    }
    assert(chars@.take(end as int).skip(at as int) =~= chars@.subrange(at as int, end as int));
    Ok(url.substring_char(at, end).to_owned())
}

/// The directory that an archive is unpacked into: in the directory for
/// temporary files, named after the moment of unpacking, in milliseconds
/// since the epoch.
pub open spec fn extract_dir(temp_dir: Seq<char>, epoch_millis: nat) -> Seq<char> {
    joined(temp_dir, "factorio-"@ + decimal(epoch_millis))
}

/// Archives unpacked at different moments are unpacked into different
/// directories.
pub proof fn lemma_extract_dir_unique(temp_dir: Seq<char>, a: nat, b: nat)
    requires
        a != b,
    ensures
        extract_dir(temp_dir, a) != extract_dir(temp_dir, b),
{
    reveal_strlit("factorio-");
    let prefix = "factorio-"@;
    let rel_a = prefix + decimal(a);
    let rel_b = prefix + decimal(b);
    lemma_decimal_injective(a, b);
    assert(rel_a[0] == 'f' && rel_b[0] == 'f');
    assert(rel_a != rel_b) by {
        if rel_a == rel_b {
            assert(rel_a.skip(prefix.len() as int) =~= decimal(a));
            assert(rel_b.skip(prefix.len() as int) =~= decimal(b));
        }
    }
    let head = if temp_dir.len() == 0 || temp_dir.last() == '/' {
        temp_dir
    } else {
        temp_dir + seq!['/']
    };
    assert(extract_dir(temp_dir, a) =~= head + rel_a);
    assert(extract_dir(temp_dir, b) =~= head + rel_b);
    if head + rel_a == head + rel_b {
        assert((head + rel_a).skip(head.len() as int) =~= rel_a);
        assert((head + rel_b).skip(head.len() as int) =~= rel_b);
    }
}

/// Where the server stands once its archive is unpacked into `dest`.
pub open spec fn payload_dir(dest: Seq<char>) -> Seq<char> {
    joined(dest, "factorio"@)
}

/// The server binary below the unpacked server.
pub open spec fn server_binary(output_dir: Seq<char>) -> Seq<char> {
    joined(output_dir, "bin/x64/factorio"@)
}

/// The data directory below the unpacked server.
pub open spec fn server_data(output_dir: Seq<char>) -> Seq<char> {
    joined(output_dir, "data"@)
}

/// The file below the unpacked server that points it to a configuration
/// for the whole system.
pub open spec fn config_path_file(output_dir: Seq<char>) -> Seq<char> {
    joined(output_dir, "config-path.cfg"@)
}

/// The line that says that `path` was found in place.
pub open spec fn already_exists_line(path: Seq<char>) -> Seq<char> {
    path + " already exists"@
}

/// The line that says where the archive `filename` was unpacked.
pub open spec fn extracted_line(filename: Seq<char>, output_dir: Seq<char>) -> Seq<char> {
    filename + " extracted to "@ + output_dir
}

/// The description of the error for a settings file that is not there.
pub open spec fn not_found_message(path: Seq<char>) -> Seq<char> {
    path + " not found"@
}

/// The arguments that make the server create the save file `save_file`.
pub open spec fn create_arguments(
    map_gen_settings: Seq<char>,
    map_settings: Seq<char>,
    save_file: Seq<char>,
) -> Seq<Seq<char>> {
    seq![
        "--map-gen-settings"@,
        map_gen_settings,
        "--map-settings"@,
        map_settings,
        "--create"@,
        save_file,
    ]
}

/// What a run is waiting for.
#[derive(Clone, Copy, Debug, PartialEq, Eq, Structural)]
pub enum Stage {
    /// The target of the redirect to the archive.
    Redirect,
    /// The list of checksums.
    Checksums,
    /// Whether the archive is there already.
    ArchiveProbe,
    /// The archive, being fetched into its file.
    ArchiveFetch,
    /// The line that says that the archive was found in place.
    ArchiveNotice,
    /// The checksum of the archive.
    ArchiveDigest,
    /// The directory for temporary files and the time.
    Clock,
    /// The archive, being unpacked.
    Unpack,
    /// The unpacked server, being handed to the configured account.
    Chown,
    /// The pointer to a configuration for the whole system, being removed.
    RemoveConfig,
    /// The line that says where the archive was unpacked.
    Report,
    /// The link to the server binary.
    LinkExe,
    /// The link to the server data.
    LinkData,
    /// Whether the save file is there already.
    SaveProbe,
    /// The line that says that the save file was found in place.
    SaveNotice,
    /// Whether the settings of the map generator are there.
    MapGenProbe,
    /// Whether the settings of the map are there.
    MapSettingsProbe,
    /// The server, creating the save file.
    CreateMap,
    /// What the server wrote while it created the save file, being printed.
    PrintMap,
    /// The configured command, which takes the place of this program.
    Launch,
    /// Nothing: the run is over.
    Over,
}

/// What the driver is to do next.
#[derive(Clone, Debug, PartialEq, Eq)]
pub enum Action {
    /// Request `url` and report the URL that the answer redirects to.
    Redirect { url: String },
    /// Fetch `url` and report the bytes of its body.
    Fetch { url: String },
    /// Report whether there is anything at `path`.
    Exists { path: String },
    /// Fetch `url` into the file `filename`, made new or emptied first.
    FetchFile { url: String, filename: String },
    /// Write `line` to the standard error stream.
    Warn { line: String },
    /// Report the checksum of the file at `path`.
    Digest { path: String },
    /// Report the directory for temporary files and the time.
    Clock,
    /// Unpack the compressed archive `archive` into the directory `dest`.
    Unpack { archive: String, dest: String },
    /// Make the account of these ids the owner of `path`, and of nothing below it.
    Chown { path: String, uid: u32, gid: u32 },
    /// Remove the file at `path`.
    Remove { path: String },
    /// Write `line` to the standard output stream.
    Print { line: String },
    /// Make `link` a symbolic link to `target`.
    Symlink { target: String, link: String },
    /// Run `program` with `args` as `user`, if one is given, wait for it, and
    /// report what it wrote to its standard output stream.
    Spawn { program: String, args: Vec<String>, user: Option<User> },
    /// Let `program` with `args` take the place of this program, as `user` if
    /// one is given. There is a report only if that fails.
    Exec { program: String, args: Vec<String>, user: Option<User> },
    /// Leave: the run is done.
    Exit,
    /// Leave and report `error`: the run has failed.
    Abort { error: RuntimeError },
}

/// The mathematical value of an [`Action`].
#[verifier::ext_equal]
pub enum ActionView {
    Redirect { url: Seq<char> },
    Fetch { url: Seq<char> },
    Exists { path: Seq<char> },
    FetchFile { url: Seq<char>, filename: Seq<char> },
    Warn { line: Seq<char> },
    Digest { path: Seq<char> },
    Clock,
    Unpack { archive: Seq<char>, dest: Seq<char> },
    Chown { path: Seq<char>, uid: u32, gid: u32 },
    Remove { path: Seq<char> },
    Print { line: Seq<char> },
    Symlink { target: Seq<char>, link: Seq<char> },
    Spawn { program: Seq<char>, args: Seq<Seq<char>>, user: Option<User> },
    Exec { program: Seq<char>, args: Seq<Seq<char>>, user: Option<User> },
    Exit,
    Abort { error: ErrorView },
}

impl View for Action {
    type V = ActionView;

    open spec fn view(&self) -> ActionView {
        match self {
            Action::Redirect { url } => ActionView::Redirect { url: url@ },
            Action::Fetch { url } => ActionView::Fetch { url: url@ },
            Action::Exists { path } => ActionView::Exists { path: path@ },
            Action::FetchFile { url, filename } => ActionView::FetchFile {
                url: url@,
                filename: filename@,
            },
            Action::Warn { line } => ActionView::Warn { line: line@ },
            Action::Digest { path } => ActionView::Digest { path: path@ },
            Action::Clock => ActionView::Clock,
            Action::Unpack { archive, dest } => ActionView::Unpack {
                archive: archive@,
                dest: dest@,
            },
            Action::Chown { path, uid, gid } => ActionView::Chown {
                path: path@,
                uid: *uid,
                gid: *gid,
            },
            Action::Remove { path } => ActionView::Remove { path: path@ },
            Action::Print { line } => ActionView::Print { line: line@ },
            Action::Symlink { target, link } => ActionView::Symlink {
                target: target@,
                link: link@,
            },
            Action::Spawn { program, args, user } => ActionView::Spawn {
                program: program@,
                args: texts(args@),
                user: *user,
            },
            Action::Exec { program, args, user } => ActionView::Exec {
                program: program@,
                args: texts(args@),
                user: *user,
            },
            Action::Exit => ActionView::Exit,
            Action::Abort { error } => ActionView::Abort { error: error@ },
        }
    }
}

/// What an action came to.
#[derive(Clone, Debug, PartialEq, Eq)]
pub enum Event {
    /// The action was performed, and there is nothing to report.
    Done,
    /// The URL that the answer redirected to, if it did redirect.
    Redirect(Option<String>),
    /// The bytes that were fetched.
    Body(Vec<u8>),
    /// Whether there is anything at the path.
    Exists(bool),
    /// The checksum of the file.
    Digest(String),
    /// The directory for temporary files, and the time in milliseconds since
    /// the epoch.
    Clock { temp_dir: String, epoch_millis: u128 },
    /// What the program wrote to its standard output stream.
    Output(String),
    /// The action failed.
    Failed(RuntimeError),
}

/// The mathematical value of an [`Event`].
#[verifier::ext_equal]
pub enum EventView {
    Done,
    Redirect(Option<Seq<char>>),
    Body(Seq<u8>),
    Exists(bool),
    Digest(Seq<char>),
    Clock { temp_dir: Seq<char>, epoch_millis: nat },
    Output(Seq<char>),
    Failed(ErrorView),
}

impl View for Event {
    type V = EventView;

    open spec fn view(&self) -> EventView {
        match self {
            Event::Done => EventView::Done,
            Event::Redirect(target) => EventView::Redirect(text_view(*target)),
            Event::Body(bytes) => EventView::Body(bytes@),
            Event::Exists(found) => EventView::Exists(*found),
            Event::Digest(sha256) => EventView::Digest(sha256@),
            Event::Clock { temp_dir, epoch_millis } => EventView::Clock {
                temp_dir: temp_dir@,
                epoch_millis: *epoch_millis as nat,
            },
            Event::Output(text) => EventView::Output(text@),
            Event::Failed(error) => EventView::Failed(error@),
        }
    }
}

/// A run: its settings, what it has found out so far, and what it is
/// waiting for.
pub struct Run {
    args: Args,
    stage: Stage,
    url: String,
    filename: String,
    hash: String,
    output_dir: String,
}

/// The mathematical value of a [`Run`].
#[verifier::ext_equal]
pub struct RunView {
    /// The settings of the run.
    pub args: ArgsView,
    /// What the run is waiting for.
    pub stage: Stage,
    /// The URL of the archive, once the download is resolved.
    pub url: Seq<char>,
    /// The name under which the archive is kept, once the download is resolved.
    pub filename: Seq<char>,
    /// The published checksum of the archive, once it is found.
    pub hash: Seq<char>,
    /// Where the unpacked server stands, once the place is chosen.
    pub output_dir: Seq<char>,
}

impl View for Run {
    type V = RunView;

    closed spec fn view(&self) -> RunView {
        RunView {
            args: self.args@,
            stage: self.stage,
            url: self.url@,
            filename: self.filename@,
            hash: self.hash@,
            output_dir: self.output_dir@,
        }
    }
}

/// The error for an event that does not answer the action it follows.
pub open spec fn unexpected_event() -> ErrorView {
    io_error(IoKind::InvalidData, "unexpected event"@)
}

/// `run`, waiting for what `stage` names.
pub open spec fn at(run: RunView, stage: Stage) -> RunView {
    RunView { stage, ..run }
}

/// The run is over, and failed with `error`.
pub open spec fn abort(run: RunView, error: ErrorView) -> (RunView, ActionView) {
    (at(run, Stage::Over), ActionView::Abort { error })
}

/// The last step: the configured command takes the place of this program.
/// Without a command the run is done.
pub open spec fn launch(run: RunView) -> (RunView, ActionView) {
    if run.args.command.len() == 0 {
        (at(run, Stage::Over), ActionView::Exit)
    } else {
        (
            at(run, Stage::Launch),
            ActionView::Exec {
                program: run.args.command[0],
                args: run.args.command.skip(1),
                user: run.args.user,
            },
        )
    }
}

/// The first save file: where none was asked for, the run goes on to the
/// last step; else it looks whether the save file is there.
pub open spec fn bootstrap(run: RunView) -> (RunView, ActionView) {
    if run.args.init_map {
        (at(run, Stage::SaveProbe), ActionView::Exists { path: run.args.save_file })
    } else {
        launch(run)
    }
}

/// The link to the server data, where one is wanted.
pub open spec fn link_data(run: RunView) -> (RunView, ActionView) {
    match run.args.data_dir {
        Some(link) => (
            at(run, Stage::LinkData),
            ActionView::Symlink { target: server_data(run.output_dir), link },
        ),
        None => bootstrap(run),
    }
}

/// The link to the server binary, where one is wanted.
pub open spec fn link_exe(run: RunView) -> (RunView, ActionView) {
    match run.args.exe_path {
        Some(link) => (
            at(run, Stage::LinkExe),
            ActionView::Symlink { target: server_binary(run.output_dir), link },
        ),
        None => link_data(run),
    }
}

/// The line that says where the archive was unpacked.
pub open spec fn report(run: RunView) -> (RunView, ActionView) {
    (
        at(run, Stage::Report),
        ActionView::Print { line: extracted_line(run.filename, run.output_dir) },
    )
}

/// The unpacked server is handed to the configured account, where there is one.
pub open spec fn own(run: RunView) -> (RunView, ActionView) {
    match run.args.user {
        Some(user) => (
            at(run, Stage::Chown),
            ActionView::Chown { path: run.output_dir, uid: user.spec_uid(), gid: user.spec_gid() },
        ),
        None => report(run),
    }
}

/// The checksum of the archive is asked for.
pub open spec fn digest(run: RunView) -> (RunView, ActionView) {
    (at(run, Stage::ArchiveDigest), ActionView::Digest { path: run.filename })
}

/// How a run begins: by asking where the latest stable release is.
pub open spec fn first(args: ArgsView) -> (RunView, ActionView) {
    (
        RunView {
            args,
            stage: Stage::Redirect,
            url: Seq::empty(),
            filename: Seq::empty(),
            hash: Seq::empty(),
            output_dir: Seq::empty(),
        },
        ActionView::Redirect { url: REDIRECT_URL@ },
    )
}

/// How a run goes on: the run after `event`, and the action that comes next.
///
/// A failed action ends the run with the error it failed with. So does an
/// event that does not answer the action it follows, and any event after
/// the run is over, with an error that says so.
pub open spec fn next(run: RunView, event: EventView) -> (RunView, ActionView) {
    match (run.stage, event) {
        (Stage::Over, _) => abort(run, unexpected_event()),
        (_, EventView::Failed(error)) => abort(run, error),
        (Stage::Redirect, EventView::Redirect(target)) => match redirect_url(target) {
            Ok(url) => match download_filename(url) {
                Ok(filename) => (
                    RunView { stage: Stage::Checksums, url, filename, ..run },
                    ActionView::Fetch { url: CHECKSUM_URL@ },
                ),
                Err(error) => abort(run, error),
            },
            Err(error) => abort(run, error),
        },
        (Stage::Checksums, EventView::Body(hashes)) => match file_hash(run.filename, hashes) {
            Ok(hash) => (
                RunView { stage: Stage::ArchiveProbe, hash, ..run },
                ActionView::Exists { path: run.filename },
            ),
            Err(error) => abort(run, error),
        },
        (Stage::ArchiveProbe, EventView::Exists(found)) => if found {
            (
                at(run, Stage::ArchiveNotice),
                ActionView::Warn { line: already_exists_line(run.filename) },
            )
        } else {
            (
                at(run, Stage::ArchiveFetch),
                ActionView::FetchFile { url: run.url, filename: run.filename },
            )
        },
        (Stage::ArchiveFetch, EventView::Done) => digest(run),
        (Stage::ArchiveNotice, EventView::Done) => digest(run),
        (Stage::ArchiveDigest, EventView::Digest(sha256)) => match hash_verdict(sha256, run.hash) {
            Ok(_) => (at(run, Stage::Clock), ActionView::Clock),
            Err(error) => abort(run, error),
        },
        (Stage::Clock, EventView::Clock { temp_dir, epoch_millis }) => {
            let dest = extract_dir(temp_dir, epoch_millis);
            (
                RunView { stage: Stage::Unpack, output_dir: payload_dir(dest), ..run },
                ActionView::Unpack { archive: run.filename, dest },
            )
        },
        (Stage::Unpack, EventView::Done) => own(run),
        (Stage::Chown, EventView::Done) => (
            at(run, Stage::RemoveConfig),
            ActionView::Remove { path: config_path_file(run.output_dir) },
        ),
        (Stage::RemoveConfig, EventView::Done) => report(run),
        (Stage::Report, EventView::Done) => link_exe(run),
        (Stage::LinkExe, EventView::Done) => link_data(run),
        (Stage::LinkData, EventView::Done) => bootstrap(run),
        (Stage::SaveProbe, EventView::Exists(found)) => if found {
            (
                at(run, Stage::SaveNotice),
                ActionView::Warn { line: already_exists_line(run.args.save_file) },
            )
        } else {
            (at(run, Stage::MapGenProbe), ActionView::Exists { path: run.args.map_gen_settings })
        },
        (Stage::SaveNotice, EventView::Done) => launch(run),
        (Stage::MapGenProbe, EventView::Exists(found)) => if found {
            (at(run, Stage::MapSettingsProbe), ActionView::Exists { path: run.args.map_settings })
        } else {
            abort(run, io_error(IoKind::NotFound, not_found_message(run.args.map_gen_settings)))
        },
        (Stage::MapSettingsProbe, EventView::Exists(found)) => if found {
            (
                at(run, Stage::CreateMap),
                ActionView::Spawn {
                    program: server_binary(run.output_dir),
                    args: create_arguments(
                        run.args.map_gen_settings,
                        run.args.map_settings,
                        run.args.save_file,
                    ),
                    user: run.args.user,
                },
            )
        } else {
            abort(run, io_error(IoKind::NotFound, not_found_message(run.args.map_settings)))
        },
        (Stage::CreateMap, EventView::Output(text)) => (
            at(run, Stage::PrintMap),
            ActionView::Print { line: text },
        ),
        (Stage::PrintMap, EventView::Done) => launch(run),
        _ => abort(run, unexpected_event()),
    }
}

impl Run {
    #[verifier::type_invariant]
    spec fn inv(self) -> bool {
        consistent(self@)
    }

    /// Begins a run with the settings `args`.
    pub fn start(args: Args) -> (begun: (Run, Action))
        ensures
            begun.0@ == first(args@).0,
            begun.1@ == first(args@).1,
            consistent(begun.0@),
    {
        let run = Run {
            args,
            stage: Stage::Redirect,
            url: String::new(),
            filename: String::new(),
            hash: String::new(),
            output_dir: String::new(),
        };
        (run, Action::Redirect { url: REDIRECT_URL.to_owned() })
    }

    /// What the run is waiting for.
    pub fn stage(&self) -> (stage: Stage)
        ensures
            stage == self@.stage,
            consistent(self@),
    {
        proof {
            use_type_invariant(self);
        }
        self.stage
    }

    /// Takes the event that the last action came to, and says what to do
    /// next: the run goes on as [`next`] says. Whatever the event,
    ///
    /// - a run that is not over comes further;
    /// - an archive is fetched only where the event says that it is not there;
    /// - the server is run only where a save file was asked for;
    /// - nothing changes owner and nothing is removed unless an account is
    ///   configured.
    pub fn step(self, event: Event) -> (out: (Run, Action))
        ensures
            out.0@ == next(self@, event@).0,
            out.1@ == next(self@, event@).1,
            consistent(out.0@),
            self@.stage != Stage::Over ==> rank(out.0@.stage) > rank(self@.stage),
            out.1@ is FetchFile ==> self@.stage == Stage::ArchiveProbe && event@
                == EventView::Exists(false),
            out.1@ is Spawn ==> self@.args.init_map,
            out.1@ is Chown || out.1@ is Remove ==> self@.args.user is Some,
    {
        proof {
            use_type_invariant(&self);
            lemma_consistent(self@, event@);
        }
        match event {
            Event::Failed(error) => match self.stage {
                Stage::Over => self.unexpected(),
                _ => self.abort(error),
            },
            Event::Done => self.done(),
            Event::Redirect(target) => self.resolve_download(target),
            Event::Body(hashes) => self.fetch_checksum(hashes),
            Event::Exists(found) => match self.stage {
                Stage::ArchiveProbe => self.fetch_factorio_archive(found),
                _ => self.init_map_settings(found),
            },
            Event::Digest(sha256) => self.verify_archive(sha256),
            Event::Clock { temp_dir, epoch_millis } => self.extract_tar_xz(temp_dir, epoch_millis),
            Event::Output(text) => self.print_output(text),
        }
    }

    /// Takes the target of the redirect: the archive has a URL and a name,
    /// and the list of checksums is fetched next. A redirect without a
    /// target, or to a URL that no name can be derived from, ends the run.
    /// So does this step at any other time than first.
    pub fn resolve_download(self, target: Option<String>) -> (out: (Run, Action))
        ensures
            out.0@ == next(self@, EventView::Redirect(text_view(target))).0,
            out.1@ == next(self@, EventView::Redirect(text_view(target))).1,
            consistent(out.0@),
            self@.stage != Stage::Redirect ==> out.1@ == (ActionView::Abort {
                error: unexpected_event(),
            }),
            self@.stage == Stage::Redirect ==> match target {
                Some(url) => match download_filename(url@) {
                    Ok(filename) => {
                        &&& out.1@ == (ActionView::Fetch { url: CHECKSUM_URL@ })
                        &&& out.0@.stage == Stage::Checksums
                        &&& out.0@.url == url@
                        &&& out.0@.filename == filename
                    },
                    Err(error) => out.1@ == (ActionView::Abort { error }),
                },
                None => out.1@ == (ActionView::Abort {
                    error: io_error(IoKind::NotFound, "no redirect url found"@),
                }),
            },
    {
        proof {
            use_type_invariant(&self);
        }
        match self.stage {
            Stage::Redirect => {},
            _ => {
                return self.unexpected();
            },
        }
        let url = match get_redirect_url(target) {
            Ok(url) => url,
            Err(error) => {
                return self.abort(error);
            },
        };
        match parse_download_filename(url.as_str()) {
            Ok(filename) => {
                let run = Run {
                    args: self.args,
                    stage: Stage::Checksums,
                    url,
                    filename,
                    hash: self.hash,
                    output_dir: self.output_dir,
                };
                (run, Action::Fetch { url: CHECKSUM_URL.to_owned() })
            },
            Err(error) => self.abort(error),
        }
    }

    /// Takes the list of checksums: the archive has a published hash, and
    /// the run looks next whether the archive is there. A list that is no
    /// text, or that does not name the archive, ends the run. So does this
    /// step at any other time than after the download is resolved.
    pub fn fetch_checksum(self, hashes: Vec<u8>) -> (out: (Run, Action))
        ensures
            out.0@ == next(self@, EventView::Body(hashes@)).0,
            out.1@ == next(self@, EventView::Body(hashes@)).1,
            consistent(out.0@),
            self@.stage != Stage::Checksums ==> out.1@ == (ActionView::Abort {
                error: unexpected_event(),
            }),
            self@.stage == Stage::Checksums ==> match file_hash(self@.filename, hashes@) {
                Ok(hash) => {
                    &&& out.1@ == (ActionView::Exists { path: self@.filename })
                    &&& out.0@.stage == Stage::ArchiveProbe
                    &&& out.0@.hash == hash
                },
                Err(error) => out.1@ == (ActionView::Abort { error }),
            },
    {
        proof {
            use_type_invariant(&self);
        }
        match self.stage {
            Stage::Checksums => {},
            _ => {
                return self.unexpected();
            },
        }
        match find_file_hash(self.filename.as_str(), hashes) {
            Ok(sha256) => {
                let path = self.filename.clone();
                let run = Run {
                    args: self.args,
                    stage: Stage::ArchiveProbe,
                    url: self.url,
                    filename: self.filename,
                    hash: sha256,
                    output_dir: self.output_dir,
                };
                (run, Action::Exists { path })
            },
            Err(error) => self.abort(error),
        }
    }

    /// Takes whether the archive is there. An archive that is there is not
    /// fetched again: the run says that it was found. One that is not there
    /// is fetched into its file. Either way the checksum of the file is
    /// asked for next, so that no archive goes unverified. At any other time
    /// than after the hash is found this step ends the run.
    pub fn fetch_factorio_archive(self, found: bool) -> (out: (Run, Action))
        ensures
            out.0@ == (if self@.stage == Stage::ArchiveProbe {
                next(self@, EventView::Exists(found))
            } else {
                abort(self@, unexpected_event())
            }).0,
            out.1@ == (if self@.stage == Stage::ArchiveProbe {
                next(self@, EventView::Exists(found))
            } else {
                abort(self@, unexpected_event())
            }).1,
            consistent(out.0@),
            out.1@ is FetchFile ==> !found,
            self@.stage == Stage::ArchiveProbe ==> {
                &&& found ==> out.1@ == (ActionView::Warn {
                    line: already_exists_line(self@.filename),
                })
                &&& !found ==> out.1@ == (ActionView::FetchFile {
                    url: self@.url,
                    filename: self@.filename,
                })
                &&& next(out.0@, EventView::Done).0.stage == Stage::ArchiveDigest
                &&& next(out.0@, EventView::Done).1 == (ActionView::Digest {
                    path: self@.filename,
                })
            },
    {
        proof {
            use_type_invariant(&self);
        }
        match self.stage {
            Stage::ArchiveProbe => {},
            _ => {
                return self.unexpected();
            },
        }
        if !found {
            let url = self.url.clone();
            let filename = self.filename.clone();
            (self.goto(Stage::ArchiveFetch), Action::FetchFile { url, filename })
        } else {
            let line = append(self.filename.as_str(), " already exists");
            (self.goto(Stage::ArchiveNotice), Action::Warn { line })
        }
    }

    /// Takes the checksum of the archive, and holds it against the published
    /// hash. Only an archive whose checksum is the hash, letter for letter,
    /// is unpacked; any other checksum ends the run with an invalid-data
    /// error, and the archive is neither unpacked nor fetched again. At any
    /// other time than after the checksum is asked for this step ends the
    /// run.
    pub fn verify_archive(self, sha256: String) -> (out: (Run, Action))
        ensures
            out.0@ == next(self@, EventView::Digest(sha256@)).0,
            out.1@ == next(self@, EventView::Digest(sha256@)).1,
            consistent(out.0@),
            self@.stage != Stage::ArchiveDigest ==> out.1@ == (ActionView::Abort {
                error: unexpected_event(),
            }),
            self@.stage == Stage::ArchiveDigest ==> {
                &&& sha256@ == self@.hash ==> out.0@ == at(self@, Stage::Clock) && out.1@
                    == ActionView::Clock
                &&& sha256@ != self@.hash ==> out.0@.stage == Stage::Over && out.1@
                    == (ActionView::Abort {
                    error: io_error(IoKind::InvalidData, crate::hash::mismatch_message()),
                })
            },
            next(self@, EventView::Digest(sha256@)).0.stage == Stage::Clock ==> sha256@
                == self@.hash,
    {
        proof {
            use_type_invariant(&self);
        }
        match self.stage {
            Stage::ArchiveDigest => {},
            _ => {
                return self.unexpected();
            },
        }
        match verify_file_hash(sha256.as_str(), self.hash.as_str()) {
            Ok(_) => (self.goto(Stage::Clock), Action::Clock),
            Err(error) => self.abort(error),
        }
    }

    /// Takes the directory for temporary files and the time: the archive is
    /// unpacked into a directory of its own, named after the time, and the
    /// server stands in the directory `factorio` below it. At any other time
    /// than after the archive is verified this step ends the run.
    pub fn extract_tar_xz(self, temp_dir: String, epoch_millis: u128) -> (out: (Run, Action))
        ensures
            out.0@ == next(
                self@,
                EventView::Clock { temp_dir: temp_dir@, epoch_millis: epoch_millis as nat },
            ).0,
            out.1@ == next(
                self@,
                EventView::Clock { temp_dir: temp_dir@, epoch_millis: epoch_millis as nat },
            ).1,
            consistent(out.0@),
            self@.stage != Stage::Clock ==> out.1@ == (ActionView::Abort {
                error: unexpected_event(),
            }),
            self@.stage == Stage::Clock ==> {
                &&& out.1@ == (ActionView::Unpack {
                    archive: self@.filename,
                    dest: extract_dir(temp_dir@, epoch_millis as nat),
                })
                &&& out.0@.stage == Stage::Unpack
                &&& out.0@.output_dir == payload_dir(extract_dir(temp_dir@, epoch_millis as nat))
            },
    {
        proof {
            use_type_invariant(&self);
        }
        match self.stage {
            Stage::Clock => {},
            _ => {
                return self.unexpected();
            },
        }
        let epoch = to_decimal(epoch_millis);
        let name = append("factorio-", epoch.as_str());
        let dest = join_path(temp_dir.as_str(), name.as_str());
        let archive = self.filename.clone();
        let run = Run {
            args: self.args,
            stage: Stage::Unpack,
            url: self.url,
            filename: self.filename,
            hash: self.hash,
            output_dir: join_path(dest.as_str(), "factorio"),
        };
        (run, Action::Unpack { archive, dest })
    }

    /// Takes whether a file is there, while the first save file is being
    /// made. Where the save file is there, the server is not run: the run
    /// says that the file was found and goes on to its last step. Where it
    /// is not, the settings of the map generator are looked for, and then
    /// those of the map; where either is not there, the run ends with a
    /// not-found error that names the file. The server is run only when the
    /// save file is not there and both settings are. A run that was not
    /// asked for a save file never looks for one, so that there this step
    /// ends the run, as it does at any other time.
    pub fn init_map_settings(self, found: bool) -> (out: (Run, Action))
        ensures
            out.0@ == (if making_probe(self@.stage) {
                next(self@, EventView::Exists(found))
            } else {
                abort(self@, unexpected_event())
            }).0,
            out.1@ == (if making_probe(self@.stage) {
                next(self@, EventView::Exists(found))
            } else {
                abort(self@, unexpected_event())
            }).1,
            consistent(out.0@),
            !self@.args.init_map ==> out.1@ == (ActionView::Abort { error: unexpected_event() }),
            out.1@ is Spawn ==> self@.args.init_map && self@.stage == Stage::MapSettingsProbe
                && found,
            self@.stage == Stage::SaveProbe && found ==> {
                &&& out.1@ == (ActionView::Warn { line: already_exists_line(self@.args.save_file) })
                &&& next(out.0@, EventView::Done) == launch(out.0@)
                &&& !(next(out.0@, EventView::Done).1 is Spawn)
                &&& !(next(out.0@, EventView::Done).1 is Abort)
            },
            self@.stage == Stage::SaveProbe && !found ==> out.1@ == (ActionView::Exists {
                path: self@.args.map_gen_settings,
            }),
            self@.stage == Stage::MapGenProbe && found ==> out.1@ == (ActionView::Exists {
                path: self@.args.map_settings,
            }),
            self@.stage == Stage::MapGenProbe && !found ==> out.1@ == (ActionView::Abort {
                error: io_error(IoKind::NotFound, not_found_message(self@.args.map_gen_settings)),
            }),
            self@.stage == Stage::MapSettingsProbe && !found ==> out.1@ == (ActionView::Abort {
                error: io_error(IoKind::NotFound, not_found_message(self@.args.map_settings)),
            }),
            self@.stage == Stage::MapSettingsProbe && found ==> out.1@ == (ActionView::Spawn {
                program: server_binary(self@.output_dir),
                args: create_arguments(
                    self@.args.map_gen_settings,
                    self@.args.map_settings,
                    self@.args.save_file,
                ),
                user: self@.args.user,
            }),
    {
        proof {
            use_type_invariant(&self);
        }
        match self.stage {
            Stage::SaveProbe => {
                if found {
                    let line = append(self.args.save_file(), " already exists");
                    return (self.goto(Stage::SaveNotice), Action::Warn { line });
                }
                let path = self.args.map_gen_settings().to_owned();
                (self.goto(Stage::MapGenProbe), Action::Exists { path })
            },
            Stage::MapGenProbe => {
                if !found {
                    let error = append(self.args.map_gen_settings(), " not found");
                    return self.abort(RuntimeError::from(NotFound::new(error.as_str())));
                }
                let path = self.args.map_settings().to_owned();
                (self.goto(Stage::MapSettingsProbe), Action::Exists { path })
            },
            Stage::MapSettingsProbe => {
                if !found {
                    let error = append(self.args.map_settings(), " not found");
                    return self.abort(RuntimeError::from(NotFound::new(error.as_str())));
                }
                let program = join_path(self.output_dir.as_str(), "bin/x64/factorio");
                let mut args: Vec<String> = Vec::new();
                args.push("--map-gen-settings".to_owned());
                args.push(self.args.map_gen_settings().to_owned());
                args.push("--map-settings".to_owned());
                args.push(self.args.map_settings().to_owned());
                args.push("--create".to_owned());
                args.push(self.args.save_file().to_owned());
                assert(texts(args@) =~= create_arguments(
                    self@.args.map_gen_settings,
                    self@.args.map_settings,
                    self@.args.save_file,
                ));
                let user = self.args.user();
                (self.goto(Stage::CreateMap), Action::Spawn { program, args, user })
            },
            _ => self.unexpected(),
        }
    }

    fn goto(self, stage: Stage) -> (run: Run)
        requires
            consistent(at(self@, stage)),
        ensures
            run@ == at(self@, stage),
    {
        Run {
            args: self.args,
            stage,
            url: self.url,
            filename: self.filename,
            hash: self.hash,
            output_dir: self.output_dir,
        }
    }

    fn abort(self, error: RuntimeError) -> (out: (Run, Action))
        ensures
            out.0@ == abort(self@, error@).0,
            out.1@ == abort(self@, error@).1,
    {
        (self.goto(Stage::Over), Action::Abort { error })
    }

    fn unexpected(self) -> (out: (Run, Action))
        ensures
            out.0@ == abort(self@, unexpected_event()).0,
            out.1@ == abort(self@, unexpected_event()).1,
    {
        let error = RuntimeError::Io {
            kind: IoKind::InvalidData,
            message: "unexpected event".to_owned(),
        };
        self.abort(error)
    }

    /// What follows an action that had nothing to report.
    fn done(self) -> (out: (Run, Action))
        ensures
            out.0@ == next(self@, EventView::Done).0,
            out.1@ == next(self@, EventView::Done).1,
    {
        proof {
            use_type_invariant(&self);
        }
        match self.stage {
            Stage::ArchiveFetch | Stage::ArchiveNotice => {
                let path = self.filename.clone();
                (self.goto(Stage::ArchiveDigest), Action::Digest { path })
            },
            Stage::Unpack => self.chown_output_dir(),
            Stage::Chown => {
                let path = join_path(self.output_dir.as_str(), "config-path.cfg");
                (self.goto(Stage::RemoveConfig), Action::Remove { path })
            },
            Stage::RemoveConfig => self.report(),
            Stage::Report => self.symlink_exe_and_data(),
            Stage::LinkExe => self.symlink_data(),
            Stage::LinkData => self.bootstrap(),
            Stage::SaveNotice | Stage::PrintMap => self.execute_user_command(),
            _ => self.unexpected(),
        }
    }

    /// What the server wrote while it made the save file is printed.
    fn print_output(self, text: String) -> (out: (Run, Action))
        ensures
            out.0@ == next(self@, EventView::Output(text@)).0,
            out.1@ == next(self@, EventView::Output(text@)).1,
    {
        proof {
            use_type_invariant(&self);
        }
        match self.stage {
            Stage::CreateMap => (self.goto(Stage::PrintMap), Action::Print { line: text }),
            _ => self.unexpected(),
        }
    }

    fn chown_output_dir(self) -> (out: (Run, Action))
        requires
            resolved(self@.stage),
        ensures
            out.0@ == own(self@).0,
            out.1@ == own(self@).1,
    {
        proof {
            use_type_invariant(&self);
        }
        match self.args.user() {
            Some(user) => {
                let path = self.output_dir.clone();
                (self.goto(Stage::Chown), Action::Chown { path, uid: user.uid(), gid: user.gid() })
            },
            None => self.report(),
        }
    }

    fn report(self) -> (out: (Run, Action))
        requires
            resolved(self@.stage),
        ensures
            out.0@ == report(self@).0,
            out.1@ == report(self@).1,
    {
        proof {
            use_type_invariant(&self);
        }
        let mut line = append(self.filename.as_str(), " extracted to ");
        line.append(self.output_dir.as_str());
        (self.goto(Stage::Report), Action::Print { line })
    }

    fn symlink_exe_and_data(self) -> (out: (Run, Action))
        requires
            resolved(self@.stage),
        ensures
            out.0@ == link_exe(self@).0,
            out.1@ == link_exe(self@).1,
    {
        proof {
            use_type_invariant(&self);
        }
        match self.args.exe_path() {
            Some(dir) => {
                let target = join_path(self.output_dir.as_str(), "bin/x64/factorio");
                let link = dir.to_owned();
                (self.goto(Stage::LinkExe), Action::Symlink { target, link })
            },
            None => self.symlink_data(),
        }
    }

    fn symlink_data(self) -> (out: (Run, Action))
        requires
            resolved(self@.stage),
        ensures
            out.0@ == link_data(self@).0,
            out.1@ == link_data(self@).1,
    {
        proof {
            use_type_invariant(&self);
        }
        match self.args.data_dir() {
            Some(dir) => {
                let target = join_path(self.output_dir.as_str(), "data");
                let link = dir.to_owned();
                (self.goto(Stage::LinkData), Action::Symlink { target, link })
            },
            None => self.bootstrap(),
        }
    }

    fn bootstrap(self) -> (out: (Run, Action))
        requires
            resolved(self@.stage),
        ensures
            out.0@ == bootstrap(self@).0,
            out.1@ == bootstrap(self@).1,
    {
        proof {
            use_type_invariant(&self);
        }
        if !self.args.init_map() {
            return self.execute_user_command();
        }
        let path = self.args.save_file().to_owned();
        (self.goto(Stage::SaveProbe), Action::Exists { path })
    }

    fn execute_user_command(self) -> (out: (Run, Action))
        requires
            resolved(self@.stage),
        ensures
            out.0@ == launch(self@).0,
            out.1@ == launch(self@).1,
    {
        proof {
            use_type_invariant(&self);
        }
        let words = self.args.exec();
        if words.len() == 0 {
            return (self.goto(Stage::Over), Action::Exit);
        }
        let program = words[0].to_owned();
        let mut args: Vec<String> = Vec::new();
        let mut i: usize = 1;
        while i < words.len()
            invariant
                1 <= i <= words@.len(),
                words@.len() == self@.args.command.len(),
                forall|j: int|
                    0 <= j < words@.len() ==> (#[trigger] words@[j])@ == self@.args.command[j],
                args@.len() == i - 1,
                forall|j: int|
                    0 <= j < args@.len() ==> (#[trigger] args@[j])@ == self@.args.command[j + 1],
            decreases words.len() - i,
        {
            args.push(words[i].to_owned());
            i += 1;
        }
        assert(texts(args@) =~= self@.args.command.skip(1));
        let user = self.args.user();
        (self.goto(Stage::Launch), Action::Exec { program, args, user })
    }
}

/// Whether a run at `stage` is looking for a file while it makes the first
/// save file.
pub open spec fn making_probe(stage: Stage) -> bool {
    stage == Stage::SaveProbe || stage == Stage::MapGenProbe || stage == Stage::MapSettingsProbe
}

/// What holds of a run at every moment: it knows its archive by the name
/// derived from the URL, and it is at no step that its settings rule out.
pub open spec fn consistent(run: RunView) -> bool {
    &&& resolved(run.stage) ==> download_filename(run.url) == Ok::<Seq<char>, ErrorView>(
        run.filename,
    )
    &&& making_save(run.stage) ==> run.args.init_map
    &&& changing_owner(run.stage) ==> run.args.user is Some
    &&& run.stage == Stage::LinkExe ==> run.args.exe_path is Some
    &&& run.stage == Stage::LinkData ==> run.args.data_dir is Some
    &&& run.stage == Stage::Launch ==> run.args.command.len() > 0
}

/// A run begins consistent and stays so, whatever happens.
pub proof fn lemma_consistent(run: RunView, event: EventView)
    ensures
        consistent(first(run.args).0),
        consistent(run) ==> consistent(next(run, event).0),
{
}

/// How far a run has come: the steps in the order in which a run can take them.
pub open spec fn rank(stage: Stage) -> nat {
    match stage {
        Stage::Redirect => 0,
        Stage::Checksums => 1,
        Stage::ArchiveProbe => 2,
        Stage::ArchiveFetch => 3,
        Stage::ArchiveNotice => 4,
        Stage::ArchiveDigest => 5,
        Stage::Clock => 6,
        Stage::Unpack => 7,
        Stage::Chown => 8,
        Stage::RemoveConfig => 9,
        Stage::Report => 10,
        Stage::LinkExe => 11,
        Stage::LinkData => 12,
        Stage::SaveProbe => 13,
        Stage::SaveNotice => 14,
        Stage::MapGenProbe => 15,
        Stage::MapSettingsProbe => 16,
        Stage::CreateMap => 17,
        Stage::PrintMap => 18,
        Stage::Launch => 19,
        Stage::Over => 20,
    }
}

/// Whether a run at `stage` is making the first save file.
pub open spec fn making_save(stage: Stage) -> bool {
    rank(Stage::SaveProbe) <= rank(stage) <= rank(Stage::PrintMap)
}

/// Whether a run at `stage` is handing the unpacked server to an account.
pub open spec fn changing_owner(stage: Stage) -> bool {
    stage == Stage::Chown || stage == Stage::RemoveConfig
}

/// Whether `action` ends the run.
pub open spec fn leaves(action: ActionView) -> bool {
    action is Exit || action is Abort
}

/// Where a run with the settings `args` stands after `events`, and the
/// action that it handed out last.
pub open spec fn run_after(args: ArgsView, events: Seq<EventView>) -> (RunView, ActionView)
    decreases events.len(),
{
    if events.len() == 0 {
        first(args)
    } else {
        next(run_after(args, events.drop_last()).0, events.last())
    }
}

/// The first failure ends the run, and is reported as it came.
pub proof fn lemma_failure_ends_run(run: RunView, error: ErrorView)
    requires
        run.stage != Stage::Over,
    ensures
        next(run, EventView::Failed(error)).0.stage == Stage::Over,
        next(run, EventView::Failed(error)).1 == (ActionView::Abort { error }),
{
}

/// A run is over exactly when it has told the driver to leave, and a run
/// that is over stays over: whatever comes then is answered with an error.
pub proof fn lemma_over_is_final(run: RunView, event: EventView)
    ensures
        leaves(next(run, event).1) <==> next(run, event).0.stage == Stage::Over,
        run.stage == Stage::Over ==> next(run, event) == abort(run, unexpected_event()),
{
}

/// Every event takes a run further: no step is taken twice, and none is
/// gone back to.
pub proof fn lemma_steps_in_order(run: RunView, event: EventView)
    requires
        run.stage != Stage::Over,
    ensures
        rank(next(run, event).0.stage) > rank(run.stage),
{
}

/// The settings of a run never change, and what a run has found out stays
/// found out: the archive's URL and name after the download is resolved,
/// the published hash after it is found, the place of the server after it
/// is chosen.
pub proof fn lemma_findings_kept(run: RunView, event: EventView)
    ensures
        next(run, event).0.args == run.args,
        rank(run.stage) > rank(Stage::Redirect) ==> next(run, event).0.url == run.url && next(
            run,
            event,
        ).0.filename == run.filename,
        rank(run.stage) > rank(Stage::Checksums) ==> next(run, event).0.hash == run.hash,
        rank(run.stage) > rank(Stage::Clock) ==> next(run, event).0.output_dir == run.output_dir,
{
}

/// An archive that is there is not fetched again, and one that is not
/// there is fetched; either way its checksum is asked for next. Nothing
/// else ever has an archive fetched.
pub proof fn lemma_fetch_once(run: RunView, found: bool, event: EventView)
    ensures
        run.stage == Stage::ArchiveProbe ==> {
            let probed = next(run, EventView::Exists(found));
            &&& found ==> probed.1 == (ActionView::Warn {
                line: already_exists_line(run.filename),
            })
            &&& !found ==> probed.1 == (ActionView::FetchFile {
                url: run.url,
                filename: run.filename,
            })
            &&& next(probed.0, EventView::Done).1 == (ActionView::Digest { path: run.filename })
        },
        next(run, event).1 is FetchFile ==> run.stage == Stage::ArchiveProbe && event
            == EventView::Exists(false),
{
}

/// Whether the archive was found in place or had to be fetched, the
/// checksum of its file is asked for, and the run goes on to unpack it
/// exactly if that checksum is the published hash: with any other checksum
/// the run ends with an invalid-data error.
pub proof fn lemma_archive_verified(run: RunView, found: bool, sha256: Seq<char>)
    requires
        run.stage == Stage::ArchiveProbe,
    ensures
        ({
            let probed = next(run, EventView::Exists(found)).0;
            let asked = next(probed, EventView::Done);
            let verified = next(asked.0, EventView::Digest(sha256));
            &&& asked.1 == (ActionView::Digest { path: run.filename })
            &&& sha256 == run.hash ==> verified.1 == ActionView::Clock
            &&& sha256 != run.hash ==> verified.0.stage == Stage::Over && verified.1
                == (ActionView::Abort {
                error: io_error(IoKind::InvalidData, crate::hash::mismatch_message()),
            })
        }),
{
}

/// An archive is unpacked only if its checksum is the published one: a run
/// comes to unpack only by way of a checksum that is equal to the hash, and
/// any other checksum ends it with an error.
pub proof fn lemma_unpack_needs_match(run: RunView, event: EventView)
    ensures
        next(run, event).1 is Unpack ==> run.stage == Stage::Clock,
        next(run, event).0.stage == Stage::Clock ==> run.stage == Stage::ArchiveDigest && event
            == EventView::Digest(run.hash),
        run.stage == Stage::ArchiveDigest && event is Digest && event != EventView::Digest(
            run.hash,
        ) ==> next(run, event) == abort(
            run,
            io_error(IoKind::InvalidData, crate::hash::mismatch_message()),
        ),
{
}

/// Making the first save file: where the save file is there, the server is
/// not run and the run goes on to its last step; where the settings of the
/// map generator are not there, or those of the map, the run ends with a
/// not-found error that names the file; the server is run only when the
/// save file is not there and both settings are.
pub proof fn lemma_save_file(run: RunView, event: EventView)
    ensures
        run.stage == Stage::SaveProbe ==> {
            let probed = next(run, EventView::Exists(true));
            &&& probed.1 == (ActionView::Warn { line: already_exists_line(run.args.save_file) })
            &&& next(probed.0, EventView::Done) == launch(probed.0)
            &&& !(next(probed.0, EventView::Done).1 is Spawn)
        },
        run.stage == Stage::SaveProbe ==> {
            let probed = next(run, EventView::Exists(false));
            &&& probed.1 == (ActionView::Exists { path: run.args.map_gen_settings })
            &&& next(probed.0, EventView::Exists(false)) == abort(
                probed.0,
                io_error(IoKind::NotFound, not_found_message(run.args.map_gen_settings)),
            )
            &&& next(probed.0, EventView::Exists(true)).1 == (ActionView::Exists {
                path: run.args.map_settings,
            })
        },
        run.stage == Stage::MapSettingsProbe ==> next(run, EventView::Exists(false)) == abort(
            run,
            io_error(IoKind::NotFound, not_found_message(run.args.map_settings)),
        ),
        next(run, event).1 is Spawn ==> run.stage == Stage::MapSettingsProbe && event
            == EventView::Exists(true),
{
}

/// Every run is consistent at every moment.
pub proof fn lemma_run_consistent(args: ArgsView, events: Seq<EventView>)
    ensures
        consistent(run_after(args, events).0),
    decreases events.len(),
{
    if events.len() > 0 {
        lemma_run_consistent(args, events.drop_last());
        lemma_consistent(run_after(args, events.drop_last()).0, events.last());
    }
}

/// Through a whole run the settings are those it began with.
pub proof fn lemma_settings_kept(args: ArgsView, events: Seq<EventView>)
    ensures
        run_after(args, events).0.args == args,
    decreases events.len(),
{
    if events.len() > 0 {
        lemma_settings_kept(args, events.drop_last());
    }
}

/// A run that was not asked to make a save file never looks for one and
/// never runs the server, whatever the other settings are and whatever
/// happens.
pub proof fn lemma_no_save_unasked(args: ArgsView, events: Seq<EventView>)
    requires
        !args.init_map,
    ensures
        !making_save(run_after(args, events).0.stage),
        !(run_after(args, events).1 is Spawn),
    decreases events.len(),
{
    if events.len() > 0 {
        lemma_no_save_unasked(args, events.drop_last());
        lemma_settings_kept(args, events.drop_last());
    }
}

/// A run without a configured account changes no owner and removes no file,
/// whatever happens.
pub proof fn lemma_no_owner_unasked(args: ArgsView, events: Seq<EventView>)
    requires
        args.user is None,
    ensures
        !changing_owner(run_after(args, events).0.stage),
        !(run_after(args, events).1 is Chown),
        !(run_after(args, events).1 is Remove),
    decreases events.len(),
{
    if events.len() > 0 {
        lemma_no_owner_unasked(args, events.drop_last());
        lemma_settings_kept(args, events.drop_last());
    }
}

/// Whether a run at `stage` knows the archive it is about.
pub open spec fn resolved(stage: Stage) -> bool {
    stage != Stage::Redirect && stage != Stage::Over
}

/// Once the download is resolved, the name of the archive is the one derived
/// from its URL: it is never empty, and it names a file in the working
/// directory, for it holds no slash.
pub proof fn lemma_archive_named(args: ArgsView, events: Seq<EventView>)
    ensures
        ({
            let run = run_after(args, events).0;
            resolved(run.stage) ==> {
                &&& download_filename(run.url) == Ok::<Seq<char>, ErrorView>(run.filename)
                &&& run.filename.len() > 0
                &&& !run.filename.contains('/')
            }
        }),
    decreases events.len(),
{
    let run = run_after(args, events).0;
    if events.len() > 0 && resolved(run.stage) {
        let before = run_after(args, events.drop_last()).0;
        lemma_archive_named(args, events.drop_last());
        lemma_findings_kept(before, events.last());
        lemma_download_filename(run.url);
    }
}

/// A run makes the links that were asked for, from the server binary and
/// from the server data, and no others.
pub proof fn lemma_links(run: RunView, event: EventView)
    ensures
        match next(run, event).1 {
            ActionView::Symlink { target, link } => {
                ||| run.args.exe_path == Some(link) && target == server_binary(run.output_dir)
                ||| run.args.data_dir == Some(link) && target == server_data(run.output_dir)
            },
            _ => true,
        },
{
}

/// Whatever is run, is run as the configured account, and whatever changes
/// owner goes to that account.
pub proof fn lemma_acts_as_user(run: RunView, event: EventView)
    ensures
        match next(run, event).1 {
            ActionView::Spawn { user, .. } => user == run.args.user,
            ActionView::Exec { user, .. } => user == run.args.user,
            ActionView::Chown { uid, gid, .. } => run.args.user matches Some(user) && uid
                == user.spec_uid() && gid == user.spec_gid(),
            _ => true,
        },
{
}

/// After `n` events a run has come at least `n` steps far, so that every
/// run is over after twenty events at the latest.
pub proof fn lemma_run_ends(args: ArgsView, events: Seq<EventView>)
    ensures
        rank(run_after(args, events).0.stage) >= events.len() || run_after(args, events).0.stage
            == Stage::Over,
        events.len() >= 20 ==> run_after(args, events).0.stage == Stage::Over,
    decreases events.len(),
{
    if events.len() > 0 {
        lemma_run_ends(args, events.drop_last());
        let before = run_after(args, events.drop_last()).0;
        if before.stage != Stage::Over {
            lemma_steps_in_order(before, events.last());
        }
    }
}

}
