//! Where the `frp` binaries come from: a path the user chose, a cached copy
//! or the official release archive for the platform, and what is reported at
//! each step, and finding the binary inside a release archive's bytes.
//! Looking at the file system and downloading are left to the caller, which
//! hands the results to the functions here.
use vstd::prelude::*;
use crate::event_sink::{events_view, EventView, RecordedEvent};
use crate::models::{
    opt_view, trimmed_nonempty, FrpBinaryStatus, FrpcDownloadPayload, FRP_VERSION_NUMBER,
    FRP_VERSION_TAG,
};
use crate::text::{chars_of, eq_ignore_ascii_case, lower, owned, str_eq, string_of_range, trim_str};

verus! {

/// How a release archive is packed.
#[derive(Debug, Clone, Copy, PartialEq, Eq, Structural)]
pub enum ArchiveKind {
    Zip,
    TarGz,
}

/// The two `frp` programs.
#[derive(Debug, Clone, Copy, PartialEq, Eq, Structural)]
pub enum FrpBinaryKind {
    Client,
    Server,
}

/// The short name of a program.
pub open spec fn label_of(kind: FrpBinaryKind) -> Seq<char> {
    match kind {
        FrpBinaryKind::Client => "frpc"@,
        FrpBinaryKind::Server => "frps"@,
    }
}

/// The file name of a program's executable on the operating system `os`.
pub open spec fn binary_file_name(kind: FrpBinaryKind, os: Seq<char>) -> Seq<char> {
    match kind {
        FrpBinaryKind::Client => if os == "windows"@ {
            "frpc.exe"@
        } else {
            "frpc"@
        },
        FrpBinaryKind::Server => if os == "windows"@ {
            "frps.exe"@
        } else {
            "frps"@
        },
    }
}

impl FrpBinaryKind {
    /// The file name of the program's executable on the operating system `os`
    /// (as `std::env::consts::OS` names it).
    pub fn binary_name(self, os: &str) -> (r: &'static str)
        ensures
            r@ == binary_file_name(self, os@),
    {
        let windows = str_eq(os, "windows");
        match self {
            FrpBinaryKind::Client => if windows {
                "frpc.exe"
            } else {
                "frpc"
            },
            FrpBinaryKind::Server => if windows {
                "frps.exe"
            } else {
                "frps"
            },
        }
    }

    /// The short name of the program.
    pub fn label(self) -> (r: &'static str)
        ensures
            r@ == label_of(self),
    {
        match self {
            FrpBinaryKind::Client => "frpc",
            FrpBinaryKind::Server => "frps",
        }
    }
}

/// The official release archive for a platform and the executable inside it.
#[derive(Debug, Clone, Copy, PartialEq, Eq)]
pub struct AssetSpec {
    pub archive_name: &'static str,
    pub binary_name: &'static str,
    pub archive_kind: ArchiveKind,
}

/// The official release archive for the operating system `os` and the
/// processor architecture `arch`, if there is one: Windows, macOS and Linux
/// on x86_64 and aarch64.
pub open spec fn archive_for(os: Seq<char>, arch: Seq<char>) -> Option<(Seq<char>, ArchiveKind)> {
    if os == "windows"@ && arch == "x86_64"@ {
        Some(("frp_0.67.0_windows_amd64.zip"@, ArchiveKind::Zip))
    } else if os == "windows"@ && arch == "aarch64"@ {
        Some(("frp_0.67.0_windows_arm64.zip"@, ArchiveKind::Zip))
    } else if os == "macos"@ && arch == "x86_64"@ {
        Some(("frp_0.67.0_darwin_amd64.tar.gz"@, ArchiveKind::TarGz))
    } else if os == "macos"@ && arch == "aarch64"@ {
        Some(("frp_0.67.0_darwin_arm64.tar.gz"@, ArchiveKind::TarGz))
    } else if os == "linux"@ && arch == "x86_64"@ {
        Some(("frp_0.67.0_linux_amd64.tar.gz"@, ArchiveKind::TarGz))
    } else if os == "linux"@ && arch == "aarch64"@ {
        Some(("frp_0.67.0_linux_arm64.tar.gz"@, ArchiveKind::TarGz))
    } else {
        None
    }
}

/// `a` and `b` joined.
pub fn join2(a: &str, b: &str) -> (r: String)
    ensures
        r@ == a@ + b@,
{
    let mut r = owned(a);
    r.append(b);
    r
}

/// `a`, `b` and `c` joined.
pub fn join3(a: &str, b: &str, c: &str) -> (r: String)
    ensures
        r@ == a@ + b@ + c@,
{
    let mut r = owned(a);
    r.append(b);
    r.append(c);
    r
}

/// `a`, `b`, `c`, `d` and `e` joined.
pub fn join5(a: &str, b: &str, c: &str, d: &str, e: &str) -> (r: String)
    ensures
        r@ == a@ + b@ + c@ + d@ + e@,
{
    let mut r = join3(a, b, c);
    r.append(d);
    r.append(e);
    r
}

/// The official release archive of `kind` for the operating system `os` and
/// the architecture `arch`; an error for any other platform.
pub fn asset_for(kind: FrpBinaryKind, os: &str, arch: &str) -> (r: Result<AssetSpec, String>)
    ensures
        match r {
            Ok(a) => archive_for(os@, arch@) == Some((a.archive_name@, a.archive_kind))
                && a.binary_name@ == binary_file_name(kind, os@),
            Err(e) => archive_for(os@, arch@) is None && e@
                == "Unsupported platform for official frp binary auto-download: "@ + os@ + "/"@
                + arch@,
        },
{
    let binary_name = kind.binary_name(os);
    let windows = str_eq(os, "windows");
    let macos = str_eq(os, "macos");
    let linux = str_eq(os, "linux");
    let x86_64 = str_eq(arch, "x86_64");
    let aarch64 = str_eq(arch, "aarch64");
    let archive: (&'static str, ArchiveKind) = if windows && x86_64 {
        ("frp_0.67.0_windows_amd64.zip", ArchiveKind::Zip)
    } else if windows && aarch64 {
        ("frp_0.67.0_windows_arm64.zip", ArchiveKind::Zip)
    } else if macos && x86_64 {
        ("frp_0.67.0_darwin_amd64.tar.gz", ArchiveKind::TarGz)
    } else if macos && aarch64 {
        ("frp_0.67.0_darwin_arm64.tar.gz", ArchiveKind::TarGz)
    } else if linux && x86_64 {
        ("frp_0.67.0_linux_amd64.tar.gz", ArchiveKind::TarGz)
    } else if linux && aarch64 {
        ("frp_0.67.0_linux_arm64.tar.gz", ArchiveKind::TarGz)
    } else {
        let mut message = join3(
            "Unsupported platform for official frp binary auto-download: ",
            os,
            "/",
        );
        message.append(arch);
        return Err(message);
    };
    Ok(AssetSpec { archive_name: archive.0, binary_name, archive_kind: archive.1 })
}

/// Where the official release archive `archive_name` is downloaded from.
pub open spec fn download_url_of(archive_name: Seq<char>) -> Seq<char> {
    "https://github.com/fatedier/frp/releases/download/"@ + FRP_VERSION_TAG@ + "/"@ + archive_name
}

/// Where the official release archive of `spec` is downloaded from.
pub fn download_url(spec: &AssetSpec) -> (r: String)
    ensures
        r@ == download_url_of(spec.archive_name@),
{
    let mut url = join3("https://github.com/fatedier/frp/releases/download/", FRP_VERSION_TAG, "/");
    url.append(spec.archive_name);
    url
}

/// Whether an archive entry whose file name is `file_name` is the executable
/// `binary_name`: ignoring ASCII case in a zip archive, exactly in a tarball.
/// An entry without a file name is never it.
pub open spec fn entry_matches(
    archive_kind: ArchiveKind,
    file_name: Option<Seq<char>>,
    binary_name: Seq<char>,
) -> bool {
    match file_name {
        None => false,
        Some(name) => match archive_kind {
            ArchiveKind::Zip => lower(name) == lower(binary_name),
            ArchiveKind::TarGz => name == binary_name,
        },
    }
}

/// Whether an archive entry whose file name is `file_name` is the executable
/// `binary_name`.
pub fn archive_entry_matches(
    archive_kind: ArchiveKind,
    file_name: Option<&str>,
    binary_name: &str,
) -> (r: bool)
    ensures
        r == entry_matches(archive_kind, opt_str_view(file_name), binary_name@),
{
    match file_name {
        None => false,
        Some(name) => match archive_kind {
            ArchiveKind::Zip => eq_ignore_ascii_case(name, binary_name),
            ArchiveKind::TarGz => str_eq(name, binary_name),
        },
    }
}

/// The view of an optional borrowed string.
pub open spec fn opt_str_view(o: Option<&str>) -> Option<Seq<char>> {
    match o {
        Some(s) => Some(s@),
        None => None,
    }
}

/// The override path, trimmed; nothing when it is missing or blank.
pub fn normalize_override_path(value: Option<&str>) -> (r: Option<String>)
    ensures
        opt_view(r) == trimmed_nonempty(opt_str_view(value)),
{
    match value {
        Some(path) => {
            let trimmed = trim_str(path);
            if trimmed.as_str().is_empty() {
                None
            } else {
                Some(trimmed)
            }
        },
        None => None,
    }
}

// ---------------------------------------------------------------------
// Statuses and reports
// ---------------------------------------------------------------------

/// A binary status as a mathematical value.
pub struct BinaryStatusView {
    pub ready: bool,
    pub path: Option<Seq<char>>,
    pub source: Option<Seq<char>>,
    pub version: Seq<char>,
    pub display_message: Seq<char>,
}

impl View for FrpBinaryStatus {
    type V = BinaryStatusView;

    open spec fn view(&self) -> BinaryStatusView {
        BinaryStatusView {
            ready: self.ready,
            path: opt_view(self.path),
            source: opt_view(self.source),
            version: self.version@,
            display_message: self.display_message@,
        }
    }
}

/// A binary that is ready at `path`, found through `source`.
pub open spec fn ready_status(
    path: Seq<char>,
    source: Seq<char>,
    display_message: Seq<char>,
) -> BinaryStatusView {
    BinaryStatusView {
        ready: true,
        path: Some(path),
        source: Some(source),
        version: FRP_VERSION_TAG@,
        display_message,
    }
}

/// A binary that is not ready.
pub open spec fn missing_status(display_message: Seq<char>) -> BinaryStatusView {
    BinaryStatusView {
        ready: false,
        path: None,
        source: None,
        version: FRP_VERSION_TAG@,
        display_message,
    }
}

/// A step of making a binary available.
pub open spec fn download_event(
    stage: Seq<char>,
    message: Seq<char>,
    path: Option<Seq<char>>,
) -> EventView {
    EventView::Download { stage, message, path }
}

/// The status of a binary that is ready at `path`, found through `source`.
pub fn binary_ready_status(
    kind: FrpBinaryKind,
    path: String,
    source: &str,
    display_message: String,
) -> (r: FrpBinaryStatus)
    ensures
        r@ == ready_status(path@, source@, display_message@),
{
    FrpBinaryStatus {
        ready: true,
        path: Some(path),
        source: Some(owned(source)),
        version: owned(FRP_VERSION_TAG),
        display_message,
    }
}

fn missing(display_message: String) -> (r: FrpBinaryStatus)
    ensures
        r@ == missing_status(display_message@),
{
    FrpBinaryStatus {
        ready: false,
        path: None,
        source: None,
        version: owned(FRP_VERSION_TAG),
        display_message,
    }
}

/// The report of a step of making a binary available.
pub fn emit_state(stage: &str, message: String, path: Option<String>) -> (r: RecordedEvent)
    ensures
        r@ == download_event(stage@, message@, opt_view(path)),
{
    RecordedEvent::Download(FrpcDownloadPayload { stage: owned(stage), message, path })
}

/// Probing with the override `path` (already normalized), which is a file
/// or not: ready from it when it is, otherwise not ready, with the promise of
/// a download.
pub open spec fn probe_override_status(kind: FrpBinaryKind, path: Seq<char>, is_file: bool) -> BinaryStatusView {
    if is_file {
        ready_status(path, "manual"@, "Using manually selected "@ + label_of(kind) + " binary."@)
    } else {
        missing_status(
            "Saved "@ + label_of(kind)
                + " path was not found. FlyTunnel will download the official binary when you start."@,
        )
    }
}

/// Probing without override, with the cached binary at `path`, which is a
/// file or not: ready from the cache when it is, otherwise not ready, with
/// the promise of a download.
pub open spec fn probe_cached_status(kind: FrpBinaryKind, path: Seq<char>, is_file: bool) -> BinaryStatusView {
    if is_file {
        ready_status(
            path,
            "cached"@,
            "Using cached official "@ + label_of(kind) + " "@ + FRP_VERSION_NUMBER@ + " binary."@,
        )
    } else {
        missing_status(
            "Official "@ + label_of(kind) + " "@ + FRP_VERSION_NUMBER@
                + " will be downloaded when you start the tunnel."@,
        )
    }
}

/// What probing reports when the user chose the binary at `path` (already
/// normalized), given whether `path` is a file.
pub fn probe_override(kind: FrpBinaryKind, path: String, is_file: bool) -> (r: FrpBinaryStatus)
    ensures
        r@ == probe_override_status(kind, path@, is_file),
{
    if is_file {
        binary_ready_status(
            kind,
            path,
            "manual",
            join3("Using manually selected ", kind.label(), " binary."),
        )
    } else {
        missing(
            join3(
                "Saved ",
                kind.label(),
                " path was not found. FlyTunnel will download the official binary when you start.",
            ),
        )
    }
}

/// What probing reports without override, given the cached binary's `path`
/// and whether it is a file. Probing never downloads.
pub fn probe_cached(kind: FrpBinaryKind, path: String, is_file: bool) -> (r: FrpBinaryStatus)
    ensures
        r@ == probe_cached_status(kind, path@, is_file),
{
    if is_file {
        binary_ready_status(
            kind,
            path,
            "cached",
            join5("Using cached official ", kind.label(), " ", FRP_VERSION_NUMBER, " binary."),
        )
    } else {
        missing(
            join5(
                "Official ",
                kind.label(),
                " ",
                FRP_VERSION_NUMBER,
                " will be downloaded when you start the tunnel.",
            ),
        )
    }
}

/// The report that the availability of `kind` is being checked.
pub open spec fn checking_event(kind: FrpBinaryKind) -> EventView {
    download_event("checking"@, "Checking "@ + label_of(kind) + " availability..."@, None)
}

/// The report that the user's binary at `path` is used.
pub open spec fn override_ready_event(kind: FrpBinaryKind, path: Seq<char>) -> EventView {
    download_event("ready"@, "Using manually selected "@ + label_of(kind) + " binary."@, Some(path))
}

/// The report that the user's binary is missing and a download follows.
pub open spec fn override_missing_event(kind: FrpBinaryKind) -> EventView {
    download_event(
        "missing"@,
        "Saved "@ + label_of(kind) + " override was not found. Falling back to official download."@,
        None,
    )
}

/// The report that the cached binary at `path` is used.
pub open spec fn cached_event(kind: FrpBinaryKind, path: Seq<char>) -> EventView {
    download_event("cached"@, "Using cached "@ + label_of(kind) + " binary."@, Some(path))
}

/// The report that the archive `archive_name` is being downloaded.
pub open spec fn downloading_event(kind: FrpBinaryKind, archive_name: Seq<char>) -> EventView {
    download_event(
        "downloading"@,
        "Downloading official "@ + label_of(kind) + " "@ + archive_name + "..."@,
        None,
    )
}

/// The report that the binary is being unpacked.
pub open spec fn extracting_event(kind: FrpBinaryKind) -> EventView {
    download_event("extracting"@, "Extracting "@ + label_of(kind) + " binary..."@, None)
}

/// The report that the downloaded binary at `path` is ready.
pub open spec fn downloaded_event(kind: FrpBinaryKind, path: Seq<char>) -> EventView {
    download_event("ready"@, label_of(kind) + " is ready to use."@, Some(path))
}

/// The status of a binary downloaded and unpacked at `path`.
pub open spec fn downloaded_status(kind: FrpBinaryKind, path: Seq<char>) -> BinaryStatusView {
    ready_status(
        path,
        "downloaded"@,
        "Downloaded official "@ + label_of(kind) + " "@ + FRP_VERSION_NUMBER@ + " for this machine."@,
    )
}

/// The first report of making `kind` available.
pub fn ensure_checking(kind: FrpBinaryKind) -> (r: RecordedEvent)
    ensures
        r@ == checking_event(kind),
{
    emit_state("checking", join3("Checking ", kind.label(), " availability..."), None)
}

/// Making `kind` available with the override `path` (already normalized),
/// given whether it is a file: the status and its report when it is, and
/// only the report of falling back to the download when it is not.
pub fn ensure_override(kind: FrpBinaryKind, path: String, is_file: bool) -> (r: (
    Option<FrpBinaryStatus>,
    RecordedEvent,
))
    ensures
        is_file ==> (r.0 matches Some(s) && s@ == probe_override_status(kind, path@, true)),
        is_file ==> r.1@ == override_ready_event(kind, path@),
        !is_file ==> r.0 is None,
        !is_file ==> r.1@ == override_missing_event(kind),
{
    if is_file {
        let event = emit_state(
            "ready",
            join3("Using manually selected ", kind.label(), " binary."),
            Some(path.clone()),
        );
        (Some(probe_override(kind, path, true)), event)
    } else {
        (
            None,
            emit_state(
                "missing",
                join3(
                    "Saved ",
                    kind.label(),
                    " override was not found. Falling back to official download.",
                ),
                None,
            ),
        )
    }
}

/// Making `kind` available from the cache at `path`, given whether it is a
/// file: the status and its report when it is, nothing when a download is
/// needed.
pub fn ensure_cached(kind: FrpBinaryKind, path: String, is_file: bool) -> (r: Option<
    (FrpBinaryStatus, RecordedEvent),
>)
    ensures
        is_file ==> (r matches Some(p) && p.0@ == probe_cached_status(kind, path@, true) && p.1@
            == cached_event(kind, path@)),
        !is_file ==> r is None,
{
    if is_file {
        let event = emit_state(
            "cached",
            join3("Using cached ", kind.label(), " binary."),
            Some(path.clone()),
        );
        Some((probe_cached(kind, path, true), event))
    } else {
        None
    }
}

/// The report that the official archive of `spec` is being downloaded.
pub fn ensure_downloading(kind: FrpBinaryKind, spec: &AssetSpec) -> (r: RecordedEvent)
    ensures
        r@ == downloading_event(kind, spec.archive_name@),
{
    emit_state(
        "downloading",
        join5("Downloading official ", kind.label(), " ", spec.archive_name, "..."),
        None,
    )
}

/// The report that the binary is being unpacked.
pub fn ensure_extracting(kind: FrpBinaryKind) -> (r: RecordedEvent)
    ensures
        r@ == extracting_event(kind),
{
    emit_state("extracting", join3("Extracting ", kind.label(), " binary..."), None)
}

/// The status and report of a binary downloaded and unpacked at `path`.
pub fn ensure_downloaded(kind: FrpBinaryKind, path: String) -> (r: (FrpBinaryStatus, RecordedEvent))
    ensures
        r.0@ == downloaded_status(kind, path@),
        r.1@ == downloaded_event(kind, path@),
{
    let event = emit_state("ready", join2(kind.label(), " is ready to use."), Some(path.clone()));
    let status = binary_ready_status(
        kind,
        path,
        "downloaded",
        join5("Downloaded official ", kind.label(), " ", FRP_VERSION_NUMBER, " for this machine."),
    );
    (status, event)
}

/// The error when the archive holds no executable of `kind`.
pub fn binary_not_found(kind: FrpBinaryKind) -> (r: String)
    ensures
        r@ == label_of(kind) + " binary was not found inside the downloaded archive."@,
{
    join2(kind.label(), " binary was not found inside the downloaded archive.")
}

// ---------------------------------------------------------------------
// Unpacking a release archive
// ---------------------------------------------------------------------

/// The part of `p` after its last `/`.
pub open spec fn last_part(p: Seq<char>) -> Seq<char>
    decreases p.len(),
{
    if p.len() == 0 || p.last() == '/' {
        Seq::<char>::empty()
    } else {
        last_part(p.drop_last()).push(p.last())
    }
}

/// The file name of an archive entry's path, whose parts are separated by
/// `/`, read as `Path::file_name` reads it: trailing slashes and `.` parts
/// are passed over, and a path that ends in `..` or has no part has none.
pub open spec fn file_name_of(p: Seq<char>) -> Option<Seq<char>>
    decreases p.len(),
{
    if p.len() == 0 {
        None
    } else if p.last() == '/' {
        file_name_of(p.drop_last())
    } else if last_part(p) == seq!['.'] {
        file_name_of(p.drop_last())
    } else if last_part(p) == seq!['.', '.'] {
        None
    } else {
        Some(last_part(p))
    }
}

proof fn lemma_last_part(p: Seq<char>, start: int)
    requires
        0 <= start <= p.len(),
        forall|k: int| start <= k < p.len() ==> p[k] != '/',
        start == 0 || p[start - 1] == '/',
    ensures
        last_part(p) == p.subrange(start, p.len() as int),
    decreases p.len(),
{
    if p.len() == start {
        assert(p.subrange(start, p.len() as int) =~= Seq::<char>::empty());
    } else {
        lemma_last_part(p.drop_last(), start);
        assert(p.subrange(start, p.len() as int) =~= p.drop_last().subrange(
            start,
            p.len() - 1,
        ).push(p.last()));
    }
}

/// The file name of an archive entry's path.
pub fn entry_file_name(path: &str) -> (r: Option<String>)
    ensures
        opt_view(r) == file_name_of(path@),
{
    let v = chars_of(path);
    let mut end: usize = v.len();
    assert(v@.subrange(0, end as int) =~= v@);
    loop
        invariant
            end <= v@.len(),
            v@ == path@,
            file_name_of(v@.subrange(0, end as int)) == file_name_of(path@),
        decreases end,
    {
        let ghost p = v@.subrange(0, end as int);
        if end == 0 {
            return None;
        }
        if v[end - 1] == '/' {
            assert(p.drop_last() =~= v@.subrange(0, end - 1));
            end = end - 1;
            continue;
        }
        let mut start: usize = end;
        while start > 0 && v[start - 1] != '/'
            invariant
                start <= end <= v@.len(),
                forall|k: int| start <= k < end ==> v@[k] != '/',
            decreases start,
        {
            start = start - 1;
        }
        let ghost part = v@.subrange(start as int, end as int);
        proof {
            lemma_last_part(p, start as int);
            assert(p.subrange(start as int, end as int) =~= part);
        }
        if end - start == 1 && v[start] == '.' {
            assert(part =~= seq!['.']);
            assert(p.drop_last() =~= v@.subrange(0, end - 1));
            end = end - 1;
            continue;
        }
        if end - start == 2 && v[start] == '.' && v[start + 1] == '.' {
            assert(part =~= seq!['.', '.']);
            return None;
        }
        assert(part != seq!['.']) by {
            if part == seq!['.'] {
                assert(part.len() == 1 && part[0] == v@[start as int]);
            }
        }
        assert(part != seq!['.', '.']) by {
            if part == seq!['.', '.'] {
                assert(part.len() == 2 && part[0] == v@[start as int] && part[1] == v@[start + 1]);
            }
        }
        return Some(string_of_range(&v, start, end));
    }
}

/// Why an entry of an archive could not be listed.
pub enum ArchiveFault {
    /// The bytes could not be read as an archive.
    Inspect(String),
    /// The entry could not be read.
    ReadEntry(String),
}

/// Why an entry could not be listed, as a mathematical value.
pub enum FaultView {
    Inspect(Seq<char>),
    ReadEntry(Seq<char>),
}

impl View for ArchiveFault {
    type V = FaultView;

    open spec fn view(&self) -> FaultView {
        match self {
            ArchiveFault::Inspect(e) => FaultView::Inspect(e@),
            ArchiveFault::ReadEntry(e) => FaultView::ReadEntry(e@),
        }
    }
}

/// What is listed at a place of an archive: nothing when the archive ends
/// before it, else the entry's path or why the entry could not be read.
pub open spec fn listed_view(item: Option<Result<String, ArchiveFault>>) -> Option<
    Result<Seq<char>, FaultView>,
> {
    match item {
        None => None,
        Some(Ok(path)) => Some(Ok(path@)),
        Some(Err(fault)) => Some(Err(fault@)),
    }
}

/// What is read of an entry: nothing when the archive ends before it, else
/// its bytes or why they could not be read.
pub open spec fn content_view(content: Option<Result<Vec<u8>, String>>) -> Option<
    Result<Seq<u8>, Seq<char>>,
> {
    match content {
        None => None,
        Some(Ok(bytes)) => Some(Ok(bytes@)),
        Some(Err(e)) => Some(Err(e@)),
    }
}

/// What `tar::Archive::entries` over a `flate2::read::GzDecoder` of
/// `archive` lists at place `index`.
pub uninterp spec fn tar_gz_listed(archive: Seq<u8>, index: nat) -> Option<Result<Seq<char>, FaultView>>;

/// What reading the entry at place `index` of the gzip-compressed tarball
/// `archive` gives.
pub uninterp spec fn tar_gz_content(archive: Seq<u8>, index: nat) -> Option<Result<Seq<u8>, Seq<char>>>;

/// What `zip::ZipArchive::by_index` lists at place `index` of `archive`.
pub uninterp spec fn zip_listed(archive: Seq<u8>, index: nat) -> Option<Result<Seq<char>, FaultView>>;

/// What reading the entry at place `index` of the zip archive `archive`
/// gives.
pub uninterp spec fn zip_content(archive: Seq<u8>, index: nat) -> Option<Result<Seq<u8>, Seq<char>>>;

/// Calls `tar::Archive::entries` over a `flate2::read::GzDecoder` of
/// `archive` and takes the entry at place `index` with `Iterator::nth`,
/// keeping its path as `tar::Entry::path_bytes` gives it. Trusted: what it
/// lists depends on the bytes and the place alone, and is named
/// `tar_gz_listed`.
#[verifier::external_body]
fn tar_gz_entry_path(archive: &[u8], index: usize) -> (r: Option<Result<String, ArchiveFault>>)
    ensures
        listed_view(r) == tar_gz_listed(archive@, index as nat),
{
    let mut tar = tar::Archive::new(flate2::read::GzDecoder::new(archive));
    let item = match tar.entries() {
        Ok(mut entries) => entries.nth(index)?,
        Err(error) => return Some(Err(ArchiveFault::Inspect(error.to_string()))),
    };
    Some(match item {
        Ok(entry) => Ok(String::from_utf8_lossy(&entry.path_bytes()).into_owned()),
        Err(error) => Err(ArchiveFault::ReadEntry(error.to_string())),
    })
}

/// Calls `tar::Archive::entries` over a `flate2::read::GzDecoder` of
/// `archive`, takes the entry at place `index` and reads it to its end.
/// Trusted: what it reads depends on the bytes and the place alone, and is
/// named `tar_gz_content`.
#[verifier::external_body]
fn tar_gz_entry_content(archive: &[u8], index: usize) -> (r: Option<Result<Vec<u8>, String>>)
    ensures
        content_view(r) == tar_gz_content(archive@, index as nat),
{
    let mut tar = tar::Archive::new(flate2::read::GzDecoder::new(archive));
    let item = match tar.entries() {
        Ok(mut entries) => entries.nth(index)?,
        Err(error) => return Some(Err(error.to_string())),
    };
    let mut entry = match item {
        Ok(entry) => entry,
        Err(error) => return Some(Err(error.to_string())),
    };
    let mut bytes = Vec::new();
    Some(std::io::Read::read_to_end(&mut entry, &mut bytes).map(|_| bytes).map_err(|error| error.to_string()))
}

/// Calls `zip::ZipArchive::new` on `archive` and `ZipArchive::by_index`
/// with `index`, keeping the entry's name; `ZipError::FileNotFound`, which
/// `by_index` gives for a place past the last entry, is nothing. Trusted:
/// what it lists depends on the bytes and the place alone, and is named
/// `zip_listed`.
#[verifier::external_body]
fn zip_entry_path(archive: &[u8], index: usize) -> (r: Option<Result<String, ArchiveFault>>)
    ensures
        listed_view(r) == zip_listed(archive@, index as nat),
{
    let mut zip = match zip::ZipArchive::new(std::io::Cursor::new(archive)) {
        Ok(zip) => zip,
        Err(error) => return Some(Err(ArchiveFault::Inspect(error.to_string()))),
    };
    let listed = match zip.by_index(index) {
        Ok(entry) => Some(Ok(entry.name().to_string())),
        Err(zip::result::ZipError::FileNotFound) => None,
        Err(error) => Some(Err(ArchiveFault::ReadEntry(error.to_string()))),
    };
    listed
}

/// Calls `zip::ZipArchive::new` on `archive` and `ZipArchive::by_index`
/// with `index`, and reads the entry to its end. Trusted: what it reads
/// depends on the bytes and the place alone, and is named `zip_content`.
#[verifier::external_body]
fn zip_entry_content(archive: &[u8], index: usize) -> (r: Option<Result<Vec<u8>, String>>)
    ensures
        content_view(r) == zip_content(archive@, index as nat),
{
    let mut zip = match zip::ZipArchive::new(std::io::Cursor::new(archive)) {
        Ok(zip) => zip,
        Err(error) => return Some(Err(error.to_string())),
    };
    let mut bytes = Vec::new();
    let read = match zip.by_index(index) {
        Ok(mut entry) => Some(std::io::Read::read_to_end(&mut entry, &mut bytes)),
        Err(zip::result::ZipError::FileNotFound) => None,
        Err(error) => return Some(Err(error.to_string())),
    };
    Some(read?.map(|_| bytes).map_err(|error| error.to_string()))
}

/// What is listed at place `index` of an archive of `archive_kind`.
pub open spec fn listed_at(archive_kind: ArchiveKind, archive: Seq<u8>, index: nat) -> Option<
    Result<Seq<char>, FaultView>,
> {
    match archive_kind {
        ArchiveKind::Zip => zip_listed(archive, index),
        ArchiveKind::TarGz => tar_gz_listed(archive, index),
    }
}

/// What is read of the entry at place `index` of an archive of
/// `archive_kind`.
pub open spec fn content_at(archive_kind: ArchiveKind, archive: Seq<u8>, index: nat) -> Option<
    Result<Seq<u8>, Seq<char>>,
> {
    match archive_kind {
        ArchiveKind::Zip => zip_content(archive, index),
        ArchiveKind::TarGz => tar_gz_content(archive, index),
    }
}

/// What looking at one listed entry decides.
pub enum EntryStep {
    /// Not the executable: look at the next entry.
    Skip,
    /// The executable: read it.
    Take,
    /// Unpacking ends with this error.
    Fail(String),
}

/// What looking at one listed entry decides, as a mathematical value.
pub enum StepView {
    Skip,
    Take,
    Fail(Seq<char>),
}

/// The view of a decision.
pub open spec fn step_view(step: EntryStep) -> StepView {
    match step {
        EntryStep::Skip => StepView::Skip,
        EntryStep::Take => StepView::Take,
        EntryStep::Fail(e) => StepView::Fail(e@),
    }
}

/// The error when the archive holds no executable of `kind`.
pub open spec fn not_found_text(kind: FrpBinaryKind) -> Seq<char> {
    label_of(kind) + " binary was not found inside the downloaded archive."@
}

/// What a listed entry decides: past the last entry the executable was not
/// found; an archive that cannot be read, or an entry that cannot be read,
/// ends unpacking with its error explained; an entry whose file name is the
/// executable's is taken, and any other is passed over.
pub open spec fn entry_step_of(
    archive_kind: ArchiveKind,
    kind: FrpBinaryKind,
    binary_name: Seq<char>,
    item: Option<Result<Seq<char>, FaultView>>,
) -> StepView {
    match item {
        None => StepView::Fail(not_found_text(kind)),
        Some(Err(FaultView::Inspect(e))) => StepView::Fail(
            "Failed to inspect "@ + label_of(kind) + " archive: "@ + e,
        ),
        Some(Err(FaultView::ReadEntry(e))) => StepView::Fail(
            "Failed to read "@ + label_of(kind) + " archive entry: "@ + e,
        ),
        Some(Ok(path)) => if entry_matches(archive_kind, file_name_of(path), binary_name) {
            StepView::Take
        } else {
            StepView::Skip
        },
    }
}

/// What a listed entry decides.
pub fn entry_step(
    archive_kind: ArchiveKind,
    kind: FrpBinaryKind,
    binary_name: &str,
    item: Option<Result<String, ArchiveFault>>,
) -> (r: EntryStep)
    ensures
        step_view(r) == entry_step_of(archive_kind, kind, binary_name@, listed_view(item)),
{
    match item {
        None => EntryStep::Fail(binary_not_found(kind)),
        Some(Err(ArchiveFault::Inspect(e))) => {
            let mut message = join3("Failed to inspect ", kind.label(), " archive: ");
            message.append(e.as_str());
            EntryStep::Fail(message)
        },
        Some(Err(ArchiveFault::ReadEntry(e))) => {
            let mut message = join3("Failed to read ", kind.label(), " archive entry: ");
            message.append(e.as_str());
            EntryStep::Fail(message)
        },
        Some(Ok(path)) => {
            let name = entry_file_name(path.as_str());
            let file_name = match &name {
                Some(n) => Some(n.as_str()),
                None => None,
            };
            if archive_entry_matches(archive_kind, file_name, binary_name) {
                EntryStep::Take
            } else {
                EntryStep::Skip
            }
        },
    }
}

/// The view of an unpacking's result.
pub open spec fn bytes_result_view(r: Result<Vec<u8>, String>) -> Result<Seq<u8>, Seq<char>> {
    match r {
        Ok(bytes) => Ok(bytes@),
        Err(e) => Err(e@),
    }
}

/// What reading the executable's entry gives: its bytes, or the error
/// explained; past the last entry, the executable was not found.
pub open spec fn taken_of(kind: FrpBinaryKind, content: Option<Result<Seq<u8>, Seq<char>>>) -> Result<
    Seq<u8>,
    Seq<char>,
> {
    match content {
        None => Err(not_found_text(kind)),
        Some(Ok(bytes)) => Ok(bytes),
        Some(Err(e)) => Err("Failed to extract "@ + label_of(kind) + " binary: "@ + e),
    }
}

/// What reading the executable's entry gives.
pub fn taken_binary(kind: FrpBinaryKind, content: Option<Result<Vec<u8>, String>>) -> (r: Result<
    Vec<u8>,
    String,
>)
    ensures
        bytes_result_view(r) == taken_of(kind, content_view(content)),
{
    match content {
        None => Err(binary_not_found(kind)),
        Some(Ok(bytes)) => Ok(bytes),
        Some(Err(e)) => {
            let mut message = join3("Failed to extract ", kind.label(), " binary: ");
            message.append(e.as_str());
            Err(message)
        },
    }
}

/// Unpacking from place `index` on: the entries are looked at in order, and
/// the first that decides ends it; the executable's entry is read.
pub open spec fn unpacked_from(
    archive_kind: ArchiveKind,
    archive: Seq<u8>,
    kind: FrpBinaryKind,
    binary_name: Seq<char>,
    index: nat,
) -> Result<Seq<u8>, Seq<char>>
    decreases usize::MAX - index,
{
    if index >= usize::MAX {
        Err(not_found_text(kind))
    } else {
        match entry_step_of(archive_kind, kind, binary_name, listed_at(archive_kind, archive, index)) {
            StepView::Fail(e) => Err(e),
            StepView::Take => taken_of(kind, content_at(archive_kind, archive, index)),
            StepView::Skip => unpacked_from(archive_kind, archive, kind, binary_name, index + 1),
        }
    }
}

/// The bytes of the executable `binary_name` of `kind` in the release
/// archive `archive` of `archive_kind`: the first entry whose file name
/// matches it, or the error that ended the search.
pub fn extract_binary(
    archive: &[u8],
    archive_kind: ArchiveKind,
    kind: FrpBinaryKind,
    binary_name: &str,
) -> (r: Result<Vec<u8>, String>)
    ensures
        bytes_result_view(r) == unpacked_from(archive_kind, archive@, kind, binary_name@, 0),
{
    let mut index: usize = 0;
    while index < usize::MAX
        invariant
            unpacked_from(archive_kind, archive@, kind, binary_name@, index as nat)
                == unpacked_from(archive_kind, archive@, kind, binary_name@, 0),
        decreases usize::MAX - index,
    {
        let item = match archive_kind {
            ArchiveKind::Zip => zip_entry_path(archive, index),
            ArchiveKind::TarGz => tar_gz_entry_path(archive, index),
        };
        match entry_step(archive_kind, kind, binary_name, item) {
            EntryStep::Fail(e) => return Err(e),
            EntryStep::Take => {
                let content = match archive_kind {
                    ArchiveKind::Zip => zip_entry_content(archive, index),
                    ArchiveKind::TarGz => tar_gz_entry_content(archive, index),
                };
                return taken_binary(kind, content);
            },
            EntryStep::Skip => {},
        }
        index = index + 1;
    }
    Err(binary_not_found(kind))
}

// ---------------------------------------------------------------------
// Making a binary available, step by step
// ---------------------------------------------------------------------

/// Where making a binary available stands.
#[derive(Debug, Clone, Copy, PartialEq, Eq, Structural)]
pub enum EnsureStage {
    /// Waiting to learn whether the user's binary is a file.
    AwaitOverride,
    /// Waiting for the install folder and the cached binary to be looked at.
    AwaitInstall,
    /// Waiting for the archive to be downloaded.
    AwaitDownload,
    /// Waiting for the binary to be unpacked.
    AwaitExtract,
    /// Done.
    Finished,
}

/// What the caller does next.
pub enum EnsureAction {
    /// Find out whether `path` is a file; answer `OverrideChecked`.
    CheckOverride { path: String },
    /// Prepare the install folder of the release, and look at the binary
    /// `spec.binary_name` in it; answer `InstallChecked` or `Failed`.
    CheckInstall { spec: AssetSpec },
    /// Download `url` to `spec.archive_name` in the install folder; answer
    /// `Downloaded` or `Failed`.
    Download { url: String, spec: AssetSpec },
    /// Unpack the binary from the archive and remove the archive; answer
    /// `Extracted` or `Failed`.
    Extract { spec: AssetSpec },
    /// Done, with this result.
    Finish(Result<FrpBinaryStatus, String>),
}

/// What the caller found out or did.
pub enum EnsureEvent {
    /// Whether the user's binary is a file.
    OverrideChecked(bool),
    /// Where the binary belongs in the install folder and whether it is
    /// already there.
    InstallChecked { binary_path: String, is_file: bool },
    /// The archive was downloaded.
    Downloaded,
    /// The binary was unpacked.
    Extracted,
    /// The step failed, for this reason.
    Failed(String),
}

/// Making a binary of `kind` available: from the user's choice when it is a
/// file, else from the cache, else by downloading and unpacking the official
/// release archive for the platform.
pub struct BinaryEnsure {
    kind: FrpBinaryKind,
    stage: EnsureStage,
    asset: Result<AssetSpec, String>,
    path: String,
}

/// `a` is the official release of `kind` for `os` and `arch`.
pub open spec fn is_asset(kind: FrpBinaryKind, os: Seq<char>, arch: Seq<char>, a: AssetSpec) -> bool {
    &&& archive_for(os, arch) == Some((a.archive_name@, a.archive_kind))
    &&& a.binary_name@ == binary_file_name(kind, os)
}

/// The error for a platform without official release.
pub open spec fn unsupported_platform(os: Seq<char>, arch: Seq<char>) -> Seq<char> {
    "Unsupported platform for official frp binary auto-download: "@ + os + "/"@ + arch
}

/// Whether `event` answers what the stage waits for.
pub open spec fn answers(stage: EnsureStage, event: EnsureEvent) -> bool {
    match event {
        EnsureEvent::Failed(_) => stage != EnsureStage::Finished,
        EnsureEvent::OverrideChecked(_) => stage == EnsureStage::AwaitOverride,
        EnsureEvent::InstallChecked { .. } => stage == EnsureStage::AwaitInstall,
        EnsureEvent::Downloaded => stage == EnsureStage::AwaitDownload,
        EnsureEvent::Extracted => stage == EnsureStage::AwaitExtract,
    }
}

/// A finished result that is a success carries a ready binary with a path.
pub open spec fn sound_action(a: EnsureAction) -> bool {
    a matches EnsureAction::Finish(Ok(s)) ==> s.ready && s.path is Some
}

impl BinaryEnsure {
    /// While the install folder, the download or the unpacking is awaited,
    /// the platform has an official release.
    #[verifier::type_invariant]
    spec fn well_formed(self) -> bool {
        (self.stage == EnsureStage::AwaitInstall || self.stage == EnsureStage::AwaitDownload
            || self.stage == EnsureStage::AwaitExtract) ==> self.asset is Ok
    }

    /// The program being made available.
    pub closed spec fn kind(&self) -> FrpBinaryKind {
        self.kind
    }

    /// Where the work stands.
    pub closed spec fn stage(&self) -> EnsureStage {
        self.stage
    }

    /// The official release for the platform, or why there is none.
    pub closed spec fn asset(&self) -> Result<AssetSpec, String> {
        self.asset
    }

    /// The user's binary while it is looked at; afterwards the place of the
    /// binary in the install folder.
    pub closed spec fn path(&self) -> Seq<char> {
        self.path@
    }

    /// Whether `event` answers what the work waits for.
    pub fn awaits(&self, event: &EnsureEvent) -> (r: bool)
        ensures
            r == answers(self.stage(), *event),
    {
        match event {
            EnsureEvent::Failed(_) => self.stage != EnsureStage::Finished,
            EnsureEvent::OverrideChecked(_) => self.stage == EnsureStage::AwaitOverride,
            EnsureEvent::InstallChecked { .. } => self.stage == EnsureStage::AwaitInstall,
            EnsureEvent::Downloaded => self.stage == EnsureStage::AwaitDownload,
            EnsureEvent::Extracted => self.stage == EnsureStage::AwaitExtract,
        }
    }

    /// The platform's official release, known to exist.
    fn release(&self) -> (r: AssetSpec)
        requires
            self.asset() is Ok,
        ensures
            self.asset() == Ok::<AssetSpec, String>(r),
    {
        match &self.asset {
            Ok(spec) => *spec,
            Err(_) => vstd::pervasive::unreached(),
        }
    }

    /// After the user's binary was ruled out: on to the install folder, or
    /// done with the platform's error.
    fn after_override(&mut self) -> (r: EnsureAction)
        ensures
            final(self).kind() == old(self).kind(),
            final(self).asset() == old(self).asset(),
            final(self).path() == old(self).path(),
            match old(self).asset() {
                Ok(spec) => final(self).stage() == EnsureStage::AwaitInstall
                    && r == (EnsureAction::CheckInstall { spec }),
                Err(e) => final(self).stage() == EnsureStage::Finished
                    && (r matches EnsureAction::Finish(Err(f)) && f@ == e@),
            },
    {
        match &self.asset {
            Ok(spec) => {
                self.stage = EnsureStage::AwaitInstall;
                EnsureAction::CheckInstall { spec: *spec }
            },
            Err(e) => {
                self.stage = EnsureStage::Finished;
                EnsureAction::Finish(Err(e.clone()))
            },
        }
    }

    /// Begins making `kind` available on the operating system `os` and the
    /// architecture `arch`, with the user's choice `override_path`. The
    /// availability check is reported; the user's binary, when given, is
    /// looked at first.
    pub fn begin(kind: FrpBinaryKind, os: &str, arch: &str, override_path: Option<&str>) -> (r: (
        BinaryEnsure,
        Vec<RecordedEvent>,
        EnsureAction,
    ))
        ensures
            r.0.kind() == kind,
            events_view(r.1@) == seq![checking_event(kind)],
            match r.0.asset() {
                Ok(a) => is_asset(kind, os@, arch@, a),
                Err(e) => archive_for(os@, arch@) is None && e@ == unsupported_platform(os@, arch@),
            },
            match trimmed_nonempty(opt_str_view(override_path)) {
                Some(p) => r.0.stage() == EnsureStage::AwaitOverride && r.0.path() == p && (r.2
                    matches EnsureAction::CheckOverride { path } && path@ == p),
                None => match r.0.asset() {
                    Ok(spec) => r.0.stage() == EnsureStage::AwaitInstall && r.2 == (
                    EnsureAction::CheckInstall { spec }),
                    Err(e) => r.0.stage() == EnsureStage::Finished && (r.2
                        matches EnsureAction::Finish(Err(f)) && f@ == e@),
                },
            },
    {
        let events = vec![ensure_checking(kind)];
        assert(events_view(events@) =~= seq![checking_event(kind)]);
        let asset = asset_for(kind, os, arch);
        match normalize_override_path(override_path) {
            Some(path) => {
                let ensure = BinaryEnsure {
                    kind,
                    stage: EnsureStage::AwaitOverride,
                    asset,
                    path: path.clone(),
                };
                (ensure, events, EnsureAction::CheckOverride { path })
            },
            None => {
                let mut ensure = BinaryEnsure {
                    kind,
                    stage: EnsureStage::Finished,
                    asset,
                    path: String::new(),
                };
                let action = ensure.after_override();
                (ensure, events, action)
            },
        }
    }

    /// Takes in what the caller found out or did, and says what to do next.
    /// A failure ends the work with its reason, reporting nothing more.
    pub fn step(&mut self, event: EnsureEvent) -> (r: (Vec<RecordedEvent>, EnsureAction))
        requires
            answers(old(self).stage(), event),
        ensures
            final(self).kind() == old(self).kind(),
            final(self).asset() == old(self).asset(),
            sound_action(r.1),
            (final(self).stage() == EnsureStage::Finished) == (r.1 is Finish),
            match event {
                EnsureEvent::Failed(e) => r.0@.len() == 0 && (r.1 matches EnsureAction::Finish(
                    Err(f),
                ) && f@ == e@),
                EnsureEvent::OverrideChecked(is_file) => if is_file {
                    &&& events_view(r.0@) == seq![override_ready_event(old(self).kind(), old(self).path())]
                    &&& r.1 matches EnsureAction::Finish(Ok(s))
                    &&& s@ == probe_override_status(old(self).kind(), old(self).path(), true)
                } else {
                    &&& events_view(r.0@) == seq![override_missing_event(old(self).kind())]
                    &&& match old(self).asset() {
                        Ok(spec) => final(self).stage() == EnsureStage::AwaitInstall && r.1 == (
                        EnsureAction::CheckInstall { spec }),
                        Err(e) => r.1 matches EnsureAction::Finish(Err(f)) && f@ == e@,
                    }
                },
                EnsureEvent::InstallChecked { binary_path, is_file } => if is_file {
                    &&& events_view(r.0@) == seq![cached_event(old(self).kind(), binary_path@)]
                    &&& r.1 matches EnsureAction::Finish(Ok(s))
                    &&& s@ == probe_cached_status(old(self).kind(), binary_path@, true)
                } else {
                    &&& old(self).asset() matches Ok(spec)
                    &&& events_view(r.0@) == seq![downloading_event(old(self).kind(), spec.archive_name@)]
                    &&& final(self).stage() == EnsureStage::AwaitDownload
                    &&& final(self).path() == binary_path@
                    &&& r.1 matches EnsureAction::Download { url, spec: s }
                    &&& s == spec
                    &&& url@ == download_url_of(spec.archive_name@)
                },
                EnsureEvent::Downloaded => {
                    &&& old(self).asset() matches Ok(spec)
                    &&& events_view(r.0@) == seq![extracting_event(old(self).kind())]
                    &&& final(self).stage() == EnsureStage::AwaitExtract
                    &&& final(self).path() == old(self).path()
                    &&& r.1 == (EnsureAction::Extract { spec })
                },
                EnsureEvent::Extracted => {
                    &&& events_view(r.0@) == seq![downloaded_event(old(self).kind(), old(self).path())]
                    &&& r.1 matches EnsureAction::Finish(Ok(s))
                    &&& s@ == downloaded_status(old(self).kind(), old(self).path())
                },
            },
    {
        proof {
            use_type_invariant(&*self);
        }
        match event {
            EnsureEvent::Failed(e) => {
                self.stage = EnsureStage::Finished;
                (Vec::new(), EnsureAction::Finish(Err(e)))
            },
            EnsureEvent::OverrideChecked(is_file) => {
                let (status, report) = ensure_override(self.kind, self.path.clone(), is_file);
                let events = vec![report];
                assert(events_view(events@) =~= seq![report@]);
                match status {
                    Some(status) => {
                        self.stage = EnsureStage::Finished;
                        (events, EnsureAction::Finish(Ok(status)))
                    },
                    None => {
                        let action = self.after_override();
                        (events, action)
                    },
                }
            },
            EnsureEvent::InstallChecked { binary_path, is_file } => {
                match ensure_cached(self.kind, binary_path.clone(), is_file) {
                    Some((status, report)) => {
                        self.stage = EnsureStage::Finished;
                        let events = vec![report];
                        assert(events_view(events@) =~= seq![report@]);
                        (events, EnsureAction::Finish(Ok(status)))
                    },
                    None => {
                        let spec = self.release();
                        self.path = binary_path;
                        self.stage = EnsureStage::AwaitDownload;
                        let report = ensure_downloading(self.kind, &spec);
                        let events = vec![report];
                        assert(events_view(events@) =~= seq![report@]);
                        (events, EnsureAction::Download { url: download_url(&spec), spec })
                    },
                }
            },
            EnsureEvent::Downloaded => {
                let spec = self.release();
                self.stage = EnsureStage::AwaitExtract;
                let report = ensure_extracting(self.kind);
                let events = vec![report];
                assert(events_view(events@) =~= seq![report@]);
                (events, EnsureAction::Extract { spec })
            },
            EnsureEvent::Extracted => {
                self.stage = EnsureStage::Finished;
                let (status, report) = ensure_downloaded(self.kind, self.path.clone());
                let events = vec![report];
                assert(events_view(events@) =~= seq![report@]);
                (events, EnsureAction::Finish(Ok(status)))
            },
        }
    }
}

/// A binary is reported ready exactly when its status carries a path.
pub proof fn law_ready_means_path(kind: FrpBinaryKind, path: Seq<char>, is_file: bool)
    ensures
        probe_override_status(kind, path, is_file).ready == (probe_override_status(kind, path, is_file).path is Some),
        probe_cached_status(kind, path, is_file).ready == (probe_cached_status(kind, path, is_file).path is Some),
        probe_override_status(kind, path, is_file).ready == is_file,
        probe_cached_status(kind, path, is_file).ready == is_file,
{
}

/// On Windows the executables end in `.exe`, elsewhere they carry no
/// extension.
pub proof fn law_windows_binaries_end_in_exe(kind: FrpBinaryKind, os: Seq<char>)
    ensures
        os == "windows"@ ==> binary_file_name(kind, os) == label_of(kind) + ".exe"@,
        os != "windows"@ ==> binary_file_name(kind, os) == label_of(kind),
{
    reveal_strlit("frpc.exe");
    reveal_strlit("frps.exe");
    reveal_strlit("frpc");
    reveal_strlit("frps");
    reveal_strlit(".exe");
    assert("frpc.exe"@ =~= "frpc"@ + ".exe"@);
    assert("frps.exe"@ =~= "frps"@ + ".exe"@);
}

} // verus!
