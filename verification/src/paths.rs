//! Where a broker keeps its socket, its journal and its lock, and what the
//! directories that hold them must be.
//!
//! Paths are the raw bytes that the operating system uses. Whoever inspects a
//! directory reports it as [`DirectoryFacts`]; everything that follows from the
//! facts is decided here.
use vstd::prelude::*;

use crate::args::Options;
use crate::text::decimal;

verus! {

/// Environment override for `--socket`.
pub const SOCKET_ENV: &'static str = "FPSMAXXING_BROKER_SOCKET";

/// Environment override for `--journal`.
///
/// Deliberately distinct from the variable that the unprivileged gateway and CLI
/// read.
pub const JOURNAL_ENV: &'static str = "FPSMAXXING_BROKER_JOURNAL_PATH";

/// Directory the broker keeps its socket and journal in by default.
pub const PRIVATE_DIR_NAME: &'static str = "fpsmaxxing";

/// Where the private directory lives when `XDG_RUNTIME_DIR` is not usable.
pub const FALLBACK_RUNTIME_BASE: &'static str = "/run";

/// The only mode the broker's private directory may have: owner access only.
pub const PRIVATE_DIR_MODE: u32 = 0o700;

/// The permission bits of a mode.
pub const PERMISSION_BITS: u32 = 0o777;

/// Bits that make a directory writable by group or world.
pub const OTHER_WRITE_BITS: u32 = 0o022;

/// Bits that give any user but the owner access to a directory.
pub const OTHER_ACCESS_BITS: u32 = 0o077;

/// The sticky bit: only an entry's owner may rename or remove it.
pub const STICKY_BIT: u32 = 0o1000;

/// The superuser, trusted to own any ancestor of the private directory.
pub const ROOT_UID: u32 = 0;

/// Socket file name inside the broker's private directory.
pub const DEFAULT_SOCKET_NAME: &'static str = "broker.sock";

/// Journal file name inside the broker's private directory.
pub const DEFAULT_JOURNAL_NAME: &'static str = "journal.sqlite";

/// Single-instance lock file name inside the broker's private directory.
pub const LOCK_FILE_NAME: &'static str = "broker.lock";

/// The only mode the audit journal and the lock may have: owner access only.
pub const JOURNAL_FILE_MODE: u32 = 0o600;

/// Every path a running broker owns.
#[derive(Debug, PartialEq, Eq)]
pub struct Paths {
    /// Where the IPC endpoint is bound.
    pub socket: Vec<u8>,
    /// Where the audit journal is written.
    pub journal: Vec<u8>,
    /// The file whose lock admits one broker.
    pub lock: Vec<u8>,
}

/// The bytes of a text.
pub open spec fn bytes_of(text: Seq<char>) -> Seq<u8> {
    vstd::utf8::encode_utf8(text)
}

/// An entry of a directory.
pub open spec fn entry_in(directory: Seq<u8>, name: Seq<char>) -> Seq<u8> {
    if directory.len() == 0 || directory.last() == '/' as u8 {
        directory + bytes_of(name)
    } else {
        directory.push('/' as u8) + bytes_of(name)
    }
}

/// Whether a path is absolute.
pub open spec fn absolute(path: Seq<u8>) -> bool {
    path.len() > 0 && path[0] == '/' as u8
}

/// Copies bytes.
fn copy_bytes(bytes: &[u8]) -> (copy: Vec<u8>)
    ensures
        copy@ == bytes@,
{
    let mut copy: Vec<u8> = Vec::new();
    let mut i: usize = 0;
    while i < bytes.len()
        invariant
            i <= bytes.len(),
            copy@ == bytes@.take(i as int),
        decreases bytes.len() - i,
    {
        copy.push(bytes[i]);
        i = i + 1;
        assert(copy@ =~= bytes@.take(i as int));
    }
    assert(bytes@.take(i as int) =~= bytes@);
    copy
}

/// Names an entry of a directory.
pub fn join(directory: &Vec<u8>, name: &str) -> (path: Vec<u8>)
    ensures
        path@ == entry_in(directory@, name@),
{
    let mut path = copy_bytes(directory.as_slice());
    if path.len() > 0 && path[path.len() - 1] != 0x2f {
        path.push(0x2f);
        assert(path@ =~= directory@.push('/' as u8));
    }
    let name_bytes = copy_bytes(name.as_bytes());
    let mut tail = name_bytes;
    path.append(&mut tail);
    path
}

/// Chooses the base directory that the private directory is created under.
///
/// `XDG_RUNTIME_DIR` is inherited from whoever started the broker, so it is
/// honored only when it is absolute and only for an unprivileged broker.
pub fn runtime_base(xdg_runtime_dir: Option<Vec<u8>>, broker_uid: u32) -> (base: Vec<u8>)
    ensures
        base@ == match xdg_runtime_dir {
            Some(inherited) => if broker_uid != ROOT_UID && absolute(inherited@) {
                inherited@
            } else {
                bytes_of(FALLBACK_RUNTIME_BASE@)
            },
            None => bytes_of(FALLBACK_RUNTIME_BASE@),
        },
{
    match xdg_runtime_dir {
        Some(inherited) => if broker_uid != ROOT_UID && inherited.len() > 0 && inherited[0] == 0x2f {
            inherited
        } else {
            copy_bytes(FALLBACK_RUNTIME_BASE.as_bytes())
        },
        None => copy_bytes(FALLBACK_RUNTIME_BASE.as_bytes()),
    }
}

/// Which variables must be looked up before the paths can be resolved: one whose
/// flag is given is not consulted at all.
pub fn variables_to_consult(options: &Options) -> (names: Vec<&'static str>)
    ensures
        names@.len() == (if options.socket is None { 1int } else { 0 }) + (if options.journal is None { 1int } else {
            0
        }),
        options.socket is None ==> names@[0]@ == SOCKET_ENV@,
        options.journal is None ==> names@.last()@ == JOURNAL_ENV@,
{
    let mut names: Vec<&'static str> = Vec::new();
    if options.socket.is_none() {
        names.push(SOCKET_ENV);
    }
    if options.journal.is_none() {
        names.push(JOURNAL_ENV);
    }
    names
}

/// The location that a flag, a variable or the private directory names, in that
/// order.
pub open spec fn located(
    flag: Option<String>,
    variable: Option<Vec<u8>>,
    directory: Seq<u8>,
    name: Seq<char>,
) -> Seq<u8> {
    match (flag, variable) {
        (Some(given), _) => bytes_of(given@),
        (None, Some(inherited)) => inherited@,
        (None, None) => entry_in(directory, name),
    }
}

/// Locates one file.
fn locate(flag: Option<String>, variable: Option<Vec<u8>>, directory: &Vec<u8>, name: &str) -> (path: Vec<u8>)
    ensures
        path@ == located(flag, variable, directory@, name@),
{
    match flag {
        Some(given) => copy_bytes(given.as_str().as_bytes()),
        None => match variable {
            Some(inherited) => inherited,
            None => join(directory, name),
        },
    }
}

/// Resolves the socket, journal, and lock locations, in override order.
///
/// The lock always stays in the private directory: what two brokers contend for
/// is the machine's knobs, which no path override makes separate.
pub fn resolve_paths_from(
    options: Options,
    socket_variable: Option<Vec<u8>>,
    journal_variable: Option<Vec<u8>>,
    directory: &Vec<u8>,
) -> (paths: Paths)
    ensures
        paths.socket@ == located(options.socket, socket_variable, directory@, DEFAULT_SOCKET_NAME@),
        paths.journal@ == located(options.journal, journal_variable, directory@, DEFAULT_JOURNAL_NAME@),
        paths.lock@ == entry_in(directory@, LOCK_FILE_NAME@),
{
    Paths {
        socket: locate(options.socket, socket_variable, directory, DEFAULT_SOCKET_NAME),
        journal: locate(options.journal, journal_variable, directory, DEFAULT_JOURNAL_NAME),
        lock: join(directory, LOCK_FILE_NAME),
    }
}

/// Where the last piece of a path starts: behind its last separator.
pub open spec fn piece_start(path: Seq<u8>) -> nat
    decreases path.len(),
{
    if path.len() == 0 || path.last() == '/' as u8 {
        path.len()
    } else {
        piece_start(path.drop_last())
    }
}

/// Whether a piece of a path names nothing: it is empty, or stands for the
/// directory it is in.
pub open spec fn idle(piece: Seq<u8>) -> bool {
    piece.len() == 0 || (piece.len() == 1 && piece[0] == '.' as u8)
}

/// A path without its last piece and the separator before it; of an absolute
/// path the root is kept.
pub open spec fn cut(path: Seq<u8>) -> Seq<u8> {
    path.take(if piece_start(path) > 2 { piece_start(path) - 1 } else { 1 })
}

/// A path without the pieces at its end that name nothing.
pub open spec fn trimmed(path: Seq<u8>) -> Seq<u8>
    decreases path.len(),
{
    proof {
        a_piece_starts_within_its_path(path);
    }
    if path.len() <= 1 || !idle(path.skip(piece_start(path) as int)) {
        path
    } else {
        trimmed(cut(path))
    }
}

/// The directory that holds what an absolute path names; the root is in none.
pub open spec fn holder(path: Seq<u8>) -> Option<Seq<u8>> {
    if trimmed(path).len() <= 1 {
        None
    } else {
        Some(trimmed(cut(trimmed(path))))
    }
}

/// The directories above what an absolute path names, innermost first.
pub open spec fn holders(path: Seq<u8>) -> Seq<Seq<u8>>
    decreases path.len(),
{
    proof {
        a_directory_is_shorter_than_its_entries(path);
    }
    match holder(path) {
        None => Seq::empty(),
        Some(directory) => seq![directory] + holders(directory),
    }
}

/// The directories above what a path names, innermost first, up to the root; a
/// relative path has none that are known.
pub open spec fn above(path: Seq<u8>) -> Seq<Seq<u8>> {
    if absolute(path) {
        holders(path)
    } else {
        Seq::empty()
    }
}

/// The last piece starts within the path.
pub proof fn a_piece_starts_within_its_path(path: Seq<u8>)
    ensures
        piece_start(path) <= path.len(),
        absolute(path) ==> piece_start(path) >= 1,
    decreases path.len(),
{
    if path.len() > 0 && path.last() != '/' as u8 {
        a_piece_starts_within_its_path(path.drop_last());
    }
}

/// Trimming leaves a prefix.
proof fn lemma_trimmed(path: Seq<u8>)
    ensures
        trimmed(path).len() <= path.len(),
        trimmed(path) == path.take(trimmed(path).len() as int),
        absolute(path) ==> absolute(trimmed(path)),
    decreases path.len(),
{
    a_piece_starts_within_its_path(path);
    if path.len() <= 1 || !idle(path.skip(piece_start(path) as int)) {
        assert(path.take(path.len() as int) =~= path);
    } else {
        let rest = cut(path);
        lemma_trimmed(rest);
        let n = trimmed(rest).len() as int;
        assert(rest.take(n) =~= path.take(n));
    }
}

/// A directory's path is a shorter prefix of the paths of what it holds.
pub proof fn a_directory_is_shorter_than_its_entries(path: Seq<u8>)
    ensures
        holder(path) matches Some(directory) ==> directory.len() < path.len() && directory == path.take(
            directory.len() as int,
        ) && (absolute(path) ==> absolute(directory)),
{
    let whole = trimmed(path);
    lemma_trimmed(path);
    if whole.len() > 1 {
        a_piece_starts_within_its_path(whole);
        lemma_trimmed(cut(whole));
        let n = trimmed(cut(whole)).len() as int;
        assert(cut(whole).take(n) =~= path.take(n));
    }
}

/// Finds where the last piece of the first `end` bytes starts.
fn find_piece(path: &Vec<u8>, end: usize) -> (start: usize)
    requires
        end <= path@.len(),
    ensures
        start <= end,
        start == piece_start(path@.take(end as int)),
{
    let mut start: usize = end;
    while start > 0 && path[start - 1] != 0x2f
        invariant
            start <= end <= path@.len(),
            piece_start(path@.take(end as int)) == piece_start(path@.take(start as int)),
        decreases start,
    {
        assert(path@.take(start as int).drop_last() =~= path@.take(start - 1));
        start = start - 1;
    }
    start
}

/// Finds how many of the first `end` bytes are left once the pieces that name
/// nothing are gone from their end.
fn trim(path: &Vec<u8>, end: usize) -> (left: usize)
    requires
        1 <= end <= path@.len(),
    ensures
        1 <= left <= end,
        path@.take(left as int) == trimmed(path@.take(end as int)),
{
    let mut left: usize = end;
    while left > 1
        invariant
            1 <= left <= end <= path@.len(),
            trimmed(path@.take(end as int)) == trimmed(path@.take(left as int)),
        decreases left,
    {
        let start = find_piece(path, left);
        proof {
            let now = path@.take(left as int);
            assert(now.skip(start as int).len() == left - start);
            assert(start < left ==> now.skip(start as int)[0] == path@[start as int]);
            assert(cut(now) =~= path@.take(if start > 2 { start - 1 } else { 1 }));
        }
        if start < left && !(left - start == 1 && path[start] == 0x2e) {
            return left;
        }
        left = if start > 2 { start - 1 } else { 1 };
    }
    left
}

/// Names the directories that have to be inspected before a path is used: those
/// above what it names, innermost first, up to the root.
pub fn directories_above(path: &Vec<u8>) -> (directories: Vec<Vec<u8>>)
    ensures
        directories@.len() == above(path@).len(),
        forall|i: int| 0 <= i < directories@.len() ==> (#[trigger] directories@[i])@ == above(path@)[i],
{
    let mut directories: Vec<Vec<u8>> = Vec::new();
    if path.len() == 0 || path[0] != 0x2f {
        return directories;
    }
    let mut end: usize = path.len();
    assert(path@.take(end as int) =~= path@);
    while end > 0
        invariant
            end <= path@.len(),
            absolute(path@),
            directories@.len() + (if end > 0 { holders(path@.take(end as int)).len() } else { 0 }) == holders(path@).len(),
            forall|i: int| 0 <= i < directories@.len() ==> (#[trigger] directories@[i])@ == holders(path@)[i],
            end > 0 ==> holders(path@.take(end as int)) == holders(path@).skip(directories@.len() as int),
        decreases end,
    {
        let ghost now = path@.take(end as int);
        let ghost rest = holders(now);
        let whole = trim(path, end);
        if whole <= 1 {
            end = 0;
        } else {
            let start = find_piece(path, whole);
            let kept: usize = if start > 2 { start - 1 } else { 1 };
            assert(cut(path@.take(whole as int)) =~= path@.take(kept as int));
            let left = trim(path, kept);
            let directory = copy_bytes(vstd::slice::slice_subrange(path.as_slice(), 0, left));
            assert(directory@ =~= path@.take(left as int));
            proof {
                a_directory_is_shorter_than_its_entries(now);
                assert(rest == seq![directory@] + holders(directory@));
                assert(rest[0] == directory@);
                assert(rest.skip(1) =~= holders(directory@));
                assert(holders(path@).skip(directories@.len() as int).skip(1) =~= holders(path@).skip(
                    directories@.len() as int + 1,
                ));
            }
            directories.push(directory);
            end = left;
        }
    }
    directories
}

/// Names a directory and those above it, innermost first, up to the root.
pub fn lineage(directory: &Vec<u8>) -> (directories: Vec<Vec<u8>>)
    ensures
        directories@.len() == above(directory@).len() + 1,
        directories@[0]@ == directory@,
        forall|i: int| 1 <= i < directories@.len() ==> (#[trigger] directories@[i])@ == above(directory@)[i - 1],
{
    let mut directories: Vec<Vec<u8>> = Vec::new();
    directories.push(copy_bytes(directory.as_slice()));
    let mut rest = directories_above(directory);
    directories.append(&mut rest);
    directories
}

/// What was found at a path, without following a symbolic link.
#[derive(Clone, Copy, Debug, PartialEq, Eq, Structural)]
pub struct DirectoryFacts {
    /// Whether it is a directory.
    pub is_dir: bool,
    /// The uid that owns it.
    pub uid: u32,
    /// Its mode.
    pub mode: u32,
}

/// How much of a directory's mode the broker insists on.
#[derive(Clone, Copy, Debug, PartialEq, Eq, Structural)]
pub enum Bar {
    /// The bar for a directory that directly holds the socket or the journal: no
    /// other user may read, write, or traverse it.
    OwnerOnly,
    /// The bar for an ancestor: no other user may write it, unless it is sticky.
    NoForeignWrite,
}

impl Bar {
    /// Whether `mode` gives some other user access this bar denies.
    pub open spec fn denies(self, mode: u32) -> bool {
        match self {
            Bar::OwnerOnly => mode & OTHER_ACCESS_BITS != 0,
            Bar::NoForeignWrite => mode & OTHER_WRITE_BITS != 0 && mode & STICKY_BIT == 0,
        }
    }

    /// Whether `mode` gives some other user access this bar denies.
    pub fn refuses(self, mode: u32) -> (yes: bool)
        ensures
            yes == self.denies(mode),
    {
        match self {
            Bar::OwnerOnly => mode & OTHER_ACCESS_BITS != 0,
            Bar::NoForeignWrite => mode & OTHER_WRITE_BITS != 0 && mode & STICKY_BIT == 0,
        }
    }

    /// How the refusal reads to an operator.
    pub open spec fn words(self) -> Seq<char> {
        match self {
            Bar::OwnerOnly => "no other user can reach"@,
            Bar::NoForeignWrite => "no other user can write"@,
        }
    }

    /// How the refusal reads to an operator.
    pub fn requirement(self) -> (words: &'static str)
        ensures
            words@ == self.words(),
    {
        match self {
            Bar::OwnerOnly => "no other user can reach",
            Bar::NoForeignWrite => "no other user can write",
        }
    }
}

/// Whether a directory passes the bar: a real directory, owned by the broker or
/// by root, and closed to other users to the degree the bar demands.
pub open spec fn sound(facts: DirectoryFacts, broker_uid: u32, bar: Bar) -> bool {
    facts.is_dir && (facts.uid == broker_uid || facts.uid == ROOT_UID) && !bar.denies(facts.mode)
}

/// Whether a directory passes the bar.
pub fn vet_directory(facts: DirectoryFacts, broker_uid: u32, bar: Bar) -> (passes: bool)
    ensures
        passes == sound(facts, broker_uid, bar),
{
    facts.is_dir && (facts.uid == broker_uid || facts.uid == ROOT_UID) && !bar.refuses(facts.mode)
}

/// How a chain of directories, from the innermost out, stands against the bar.
#[derive(Clone, Copy, Debug, PartialEq, Eq, Structural)]
pub enum Vetting {
    /// Every directory passes.
    Sound,
    /// The path is not absolute, or names no directory to sit in.
    NotAnEntry,
    /// This directory, counted from the innermost, could not be inspected.
    Uninspected(usize),
    /// This directory, counted from the innermost, fails the bar.
    Refused(usize),
}

/// Whether the directory at that place of the chain passes its bar.
pub open spec fn link_sound(chain: Seq<Option<DirectoryFacts>>, at: int, broker_uid: u32, innermost: Bar) -> bool {
    chain[at] matches Some(facts) && sound(facts, broker_uid, if at == 0 { innermost } else { Bar::NoForeignWrite })
}

/// How the chain stands: the first directory that does not pass decides.
pub open spec fn chain_stands(
    chain: Seq<Option<DirectoryFacts>>,
    broker_uid: u32,
    innermost: Bar,
    vetting: Vetting,
) -> bool {
    match vetting {
        Vetting::Sound => forall|i: int| 0 <= i < chain.len() ==> #[trigger] link_sound(chain, i, broker_uid, innermost),
        Vetting::Uninspected(at) => {
            &&& at < chain.len()
            &&& chain[at as int] is None
            &&& forall|i: int| 0 <= i < at ==> #[trigger] link_sound(chain, i, broker_uid, innermost)
        },
        Vetting::Refused(at) => {
            &&& at < chain.len()
            &&& chain[at as int] is Some
            &&& !link_sound(chain, at as int, broker_uid, innermost)
            &&& forall|i: int| 0 <= i < at ==> #[trigger] link_sound(chain, i, broker_uid, innermost)
        },
        Vetting::NotAnEntry => false,
    }
}

/// Vets a chain of directories; the innermost is held to its own bar.
fn vet_chain(chain: &Vec<Option<DirectoryFacts>>, broker_uid: u32, innermost: Bar) -> (vetting: Vetting)
    ensures
        chain_stands(chain@, broker_uid, innermost, vetting),
{
    let mut i: usize = 0;
    while i < chain.len()
        invariant
            i <= chain.len(),
            forall|j: int| 0 <= j < i ==> #[trigger] link_sound(chain@, j, broker_uid, innermost),
        decreases chain.len() - i,
    {
        let bar = if i == 0 { innermost } else { Bar::NoForeignWrite };
        match chain[i] {
            None => {
                return Vetting::Uninspected(i);
            },
            Some(facts) => {
                if !vet_directory(facts, broker_uid, bar) {
                    return Vetting::Refused(i);
                }
            },
        }
        i = i + 1;
    }
    Vetting::Sound
}

/// What was found at the first `count` directories of a chain; one of which
/// nothing is said was not inspected.
pub open spec fn found_at(chain: Seq<Option<DirectoryFacts>>, count: nat) -> Seq<Option<DirectoryFacts>> {
    Seq::new(count, |i: int| if i < chain.len() { chain[i] } else { None })
}

/// How a base directory stands, given what was found at it and at the
/// directories above it.
pub open spec fn base_stands(
    base: Seq<u8>,
    chain: Seq<Option<DirectoryFacts>>,
    broker_uid: u32,
    vetting: Vetting,
) -> bool {
    chain_stands(found_at(chain, above(base).len() + 1), broker_uid, Bar::NoForeignWrite, vetting)
}

/// How a resolved path stands, given what was found at the directories above it:
/// every one of them has to be inspected and to pass.
pub open spec fn path_stands(
    path: Seq<u8>,
    chain: Seq<Option<DirectoryFacts>>,
    broker_uid: u32,
    vetting: Vetting,
) -> bool {
    if above(path).len() > 0 {
        chain_stands(found_at(chain, above(path).len()), broker_uid, Bar::OwnerOnly, vetting)
    } else {
        vetting == Vetting::NotAnEntry
    }
}

/// Takes what was found at the first `count` directories of a chain.
fn take_found(chain: &Vec<Option<DirectoryFacts>>, count: usize) -> (found: Vec<Option<DirectoryFacts>>)
    ensures
        found@ == found_at(chain@, count as nat),
{
    let mut found: Vec<Option<DirectoryFacts>> = Vec::new();
    let mut i: usize = 0;
    while i < count
        invariant
            i <= count,
            found@ == found_at(chain@, i as nat),
        decreases count - i,
    {
        found.push(if i < chain.len() { chain[i] } else { None });
        i = i + 1;
        assert(found@ =~= found_at(chain@, i as nat));
    }
    found
}

/// Vets a base directory and everything above it, given what was found there from
/// the innermost out: none of them may be one that another user can tamper with.
pub fn vet_ancestors(base: &Vec<u8>, chain: &Vec<Option<DirectoryFacts>>, broker_uid: u32) -> (vetting: Vetting)
    ensures
        base_stands(base@, chain@, broker_uid, vetting),
{
    let found = take_found(chain, lineage(base).len());
    vet_chain(&found, broker_uid, Bar::NoForeignWrite)
}

/// Vets a resolved socket or journal path, given what was found at the
/// directories above it from the innermost out.
///
/// A relative path would resolve against the inherited working directory, so it
/// is refused. The directory that directly holds the entry is held to a stricter
/// bar than those above it: owner access only, sticky or not.
pub fn vet_resolved_path(path: &Vec<u8>, chain: &Vec<Option<DirectoryFacts>>, broker_uid: u32) -> (vetting: Vetting)
    ensures
        path_stands(path@, chain@, broker_uid, vetting),
{
    let count: usize = directories_above(path).len();
    if count == 0 {
        return Vetting::NotAnEntry;
    }
    let found = take_found(chain, count);
    vet_chain(&found, broker_uid, Bar::OwnerOnly)
}

/// Accepts the paths where the socket's and the journal's have both been vetted
/// and found sound; the socket's refusal comes first.
pub fn accept_paths(paths: Paths, socket: Vetting, journal: Vetting) -> (accepted: Result<Paths, Vetting>)
    ensures
        accepted == if socket != Vetting::Sound {
            Err::<Paths, Vetting>(socket)
        } else if journal != Vetting::Sound {
            Err::<Paths, Vetting>(journal)
        } else {
            Ok::<Paths, Vetting>(paths)
        },
{
    if socket != Vetting::Sound {
        Err(socket)
    } else if journal != Vetting::Sound {
        Err(journal)
    } else {
        Ok(paths)
    }
}

/// A path that a broker was refused.
#[derive(Clone, Copy, Debug, PartialEq, Eq, Structural)]
pub enum Refusal {
    /// The socket's path.
    Socket(Vetting),
    /// The journal's path.
    Journal(Vetting),
}

/// Vets the resolved paths, given what was found at the directories above the
/// socket and above the journal: they are accepted exactly where both are sound.
pub fn vet_resolved_paths(
    paths: Paths,
    socket_chain: &Vec<Option<DirectoryFacts>>,
    journal_chain: &Vec<Option<DirectoryFacts>>,
    broker_uid: u32,
) -> (accepted: Result<Paths, Refusal>)
    ensures
        match accepted {
            Ok(vetted) => {
                &&& vetted == paths
                &&& path_stands(paths.socket@, socket_chain@, broker_uid, Vetting::Sound)
                &&& path_stands(paths.journal@, journal_chain@, broker_uid, Vetting::Sound)
            },
            Err(Refusal::Socket(vetting)) => {
                &&& vetting != Vetting::Sound
                &&& path_stands(paths.socket@, socket_chain@, broker_uid, vetting)
            },
            Err(Refusal::Journal(vetting)) => {
                &&& path_stands(paths.socket@, socket_chain@, broker_uid, Vetting::Sound)
                &&& vetting != Vetting::Sound
                &&& path_stands(paths.journal@, journal_chain@, broker_uid, vetting)
            },
        },
{
    let socket = vet_resolved_path(&paths.socket, socket_chain, broker_uid);
    let journal = vet_resolved_path(&paths.journal, journal_chain, broker_uid);
    match accept_paths(paths, socket, journal) {
        Ok(accepted) => Ok(accepted),
        Err(vetting) => if socket != Vetting::Sound {
            Err(Refusal::Socket(vetting))
        } else {
            Err(Refusal::Journal(vetting))
        },
    }
}

/// Whether a directory may be the broker's private one.
pub open spec fn private(facts: DirectoryFacts, broker_uid: u32) -> bool {
    facts.is_dir && facts.uid == broker_uid && facts.mode & PERMISSION_BITS == PRIVATE_DIR_MODE
}

/// What establishing the private directory has come to.
#[derive(Clone, Copy, Debug, PartialEq, Eq, Structural)]
pub enum DirectoryEvent {
    /// The base and everything above it has been vetted.
    Vetted(Vetting),
    /// The directory was created.
    Created,
    /// An entry of that name was there already.
    AlreadyExists,
    /// The mode of the created directory was set.
    Restricted,
    /// The entry was inspected.
    Inspected(DirectoryFacts),
}

/// What establishing the private directory does next.
#[derive(Clone, Copy, Debug, PartialEq, Eq, Structural)]
pub enum DirectoryStep {
    /// Create the directory.
    Create,
    /// Set the mode of the directory, which the inherited umask may have cut.
    Restrict,
    /// Inspect the entry.
    Inspect,
    /// The directory is established.
    Ready,
    /// Something above the directory is not sound.
    RefuseAncestor(Vetting),
    /// The entry is not a directory of the broker's own with the private mode.
    RefuseDirectory,
}

/// Establishes the private directory step by step: nothing is created under an
/// ancestor that is refused, and what is there in the end is vetted whether or
/// not the broker created it.
pub fn private_directory_in(event: DirectoryEvent, broker_uid: u32) -> (step: DirectoryStep)
    ensures
        step == match event {
            DirectoryEvent::Vetted(vetting) => if vetting == Vetting::Sound {
                DirectoryStep::Create
            } else {
                DirectoryStep::RefuseAncestor(vetting)
            },
            DirectoryEvent::Created => DirectoryStep::Restrict,
            DirectoryEvent::AlreadyExists => DirectoryStep::Inspect,
            DirectoryEvent::Restricted => DirectoryStep::Inspect,
            DirectoryEvent::Inspected(facts) => if private(facts, broker_uid) {
                DirectoryStep::Ready
            } else {
                DirectoryStep::RefuseDirectory
            },
        },
{
    match event {
        DirectoryEvent::Vetted(vetting) => if vetting == Vetting::Sound {
            DirectoryStep::Create
        } else {
            DirectoryStep::RefuseAncestor(vetting)
        },
        DirectoryEvent::Created => DirectoryStep::Restrict,
        DirectoryEvent::AlreadyExists => DirectoryStep::Inspect,
        DirectoryEvent::Restricted => DirectoryStep::Inspect,
        DirectoryEvent::Inspected(facts) => if facts.is_dir && facts.uid == broker_uid && facts.mode & PERMISSION_BITS
            == PRIVATE_DIR_MODE {
            DirectoryStep::Ready
        } else {
            DirectoryStep::RefuseDirectory
        },
    }
}

/// The names of the files that the database keeps beside the journal.
pub open spec fn side_file(path: Seq<u8>, which: int) -> Seq<u8> {
    path + bytes_of(
        if which == 0 {
            "-journal"@
        } else if which == 1 {
            "-wal"@
        } else {
            "-shm"@
        },
    )
}

/// Names the files that the database keeps beside the journal.
pub fn side_files(path: &Vec<u8>) -> (names: Vec<Vec<u8>>)
    ensures
        names@.len() == 3,
        forall|i: int| 0 <= i < 3 ==> (#[trigger] names@[i])@ == side_file(path@, i),
{
    let mut names: Vec<Vec<u8>> = Vec::new();
    let mut first = copy_bytes(path.as_slice());
    let mut second = copy_bytes(path.as_slice());
    let mut third = copy_bytes(path.as_slice());
    let mut a = copy_bytes("-journal".as_bytes());
    let mut b = copy_bytes("-wal".as_bytes());
    let mut c = copy_bytes("-shm".as_bytes());
    first.append(&mut a);
    second.append(&mut b);
    third.append(&mut c);
    names.push(first);
    names.push(second);
    names.push(third);
    names
}

/// Why a broker refuses to start on its paths.
#[derive(Clone, Debug)]
pub enum StartError {
    /// The path is not an absolute path to an entry inside a directory.
    NotAnEntry,
    /// A directory fails the bar.
    Directory {
        /// The broker's uid.
        broker_uid: u32,
        /// The bar.
        bar: Bar,
    },
    /// The private directory is not the broker's own.
    Private {
        /// The broker's uid.
        broker_uid: u32,
    },
    /// Another broker holds the lock.
    Locked,
    /// An action on the path failed.
    Failed {
        /// What could not be done.
        action: String,
        /// In which words it failed.
        error: String,
    },
}

impl StartError {
    /// The sentence that describes the refusal of the path shown.
    pub open spec fn sentence(&self, path: Seq<char>) -> Seq<char> {
        match self {
            StartError::NotAnEntry => path + " must be an absolute path to an entry inside a directory"@,
            StartError::Directory { broker_uid, bar } => path + " must be a directory owned by uid "@
                + crate::text::decimal_digits(*broker_uid as nat) + " or root that "@ + bar.words() + " it"@,
            StartError::Private { broker_uid } => path + " must be a directory owned by uid "@
                + crate::text::decimal_digits(*broker_uid as nat) + " with mode 700"@,
            StartError::Locked => path + " is held by a running broker; only one may own this machine's knobs"@,
            StartError::Failed { action, error } => path + " cannot be "@ + action@ + ": "@ + error@,
        }
    }

    /// The sentence that describes the refusal of the path shown.
    pub fn message(&self, path: &str) -> (text: String)
        ensures
            text@ == self.sentence(path@),
    {
        match self {
            StartError::NotAnEntry => path.to_owned().concat(
                " must be an absolute path to an entry inside a directory",
            ),
            StartError::Directory { broker_uid, bar } => path.to_owned()
                .concat(" must be a directory owned by uid ")
                .concat(decimal(*broker_uid as u64).as_str())
                .concat(" or root that ")
                .concat(bar.requirement())
                .concat(" it"),
            StartError::Private { broker_uid } => path.to_owned()
                .concat(" must be a directory owned by uid ")
                .concat(decimal(*broker_uid as u64).as_str())
                .concat(" with mode 700"),
            StartError::Locked => path.to_owned().concat(
                " is held by a running broker; only one may own this machine's knobs",
            ),
            StartError::Failed { action, error } => path.to_owned()
                .concat(" cannot be ")
                .concat(action.as_str())
                .concat(": ")
                .concat(error.as_str()),
        }
    }
}

/// No other user can reach the directory that directly holds an accepted path, or
/// write any above it that is not sticky; each of them was inspected.
pub proof fn an_accepted_path_is_out_of_reach(
    path: Seq<u8>,
    chain: Seq<Option<DirectoryFacts>>,
    broker_uid: u32,
    at: int,
)
    requires
        path_stands(path, chain, broker_uid, Vetting::Sound),
        0 <= at < above(path).len(),
    ensures
        at < chain.len(),
        chain[at] matches Some(facts) && facts.is_dir && (facts.uid == broker_uid || facts.uid == ROOT_UID) && (if at
            == 0 {
            facts.mode & OTHER_ACCESS_BITS == 0
        } else {
            facts.mode & OTHER_WRITE_BITS == 0 || facts.mode & STICKY_BIT != 0
        }),
{
    let found = found_at(chain, above(path).len());
    assert(link_sound(found, at, broker_uid, Bar::OwnerOnly));
}

/// A directory that only its owner can reach passes either bar.
pub proof fn the_stricter_bar_implies_the_other(mode: u32)
    requires
        !Bar::OwnerOnly.denies(mode),
    ensures
        !Bar::NoForeignWrite.denies(mode),
{
    assert(mode & 0o077 == 0 ==> mode & 0o022 == 0) by (bit_vector);
}

/// A path stands in one way only, so what is refused is never accepted.
pub proof fn a_path_stands_in_one_way(
    path: Seq<u8>,
    chain: Seq<Option<DirectoryFacts>>,
    broker_uid: u32,
    one: Vetting,
    other: Vetting,
)
    requires
        path_stands(path, chain, broker_uid, one),
        path_stands(path, chain, broker_uid, other),
    ensures
        one == other,
{
    if above(path).len() > 0 {
        let chain = found_at(chain, above(path).len());
        let bar = Bar::OwnerOnly;
        if let Vetting::Uninspected(at) = one {
            assert(!link_sound(chain, at as int, broker_uid, bar));
        }
        if let Vetting::Refused(at) = one {
            assert(!link_sound(chain, at as int, broker_uid, bar));
        }
        if let Vetting::Uninspected(at) = other {
            assert(!link_sound(chain, at as int, broker_uid, bar));
        }
        if let Vetting::Refused(at) = other {
            assert(!link_sound(chain, at as int, broker_uid, bar));
        }
    }
}

/// The directories above an absolute path lead to the root without a gap: each is
/// a shorter prefix of the path, those above it follow it, and the last is the
/// root.
pub proof fn the_directories_above_lead_to_the_root(path: Seq<u8>, at: int)
    requires
        absolute(path),
        0 <= at < above(path).len(),
    ensures
        absolute(above(path)[at]),
        above(path)[at].len() < path.len(),
        above(path)[at] == path.take(above(path)[at].len() as int),
        above(above(path)[at]) == above(path).skip(at + 1),
        above(path).last() == seq!['/' as u8],
    decreases path.len(),
{
    a_directory_is_shorter_than_its_entries(path);
    let directory = holder(path)->0;
    let rest = holders(directory);
    assert(holders(path) == seq![directory] + rest);
    assert(holders(path).skip(1) =~= rest);
    if at > 0 {
        the_directories_above_lead_to_the_root(directory, at - 1);
        assert(holders(path)[at] == rest[at - 1]);
        assert(holders(path).skip(at + 1) =~= rest.skip(at));
        let n = rest[at - 1].len() as int;
        assert(directory.take(n) =~= path.take(n));
        assert(holders(path).last() == rest.last());
    } else if rest.len() > 0 {
        the_directories_above_lead_to_the_root(directory, 0);
        assert(holders(path).last() == rest.last());
    } else {
        lemma_trimmed_twice(cut(trimmed(path)));
        assert(directory =~= seq!['/' as u8]);
    }
}

/// Nothing is left to trim of a trimmed path.
proof fn lemma_trimmed_twice(path: Seq<u8>)
    ensures
        trimmed(trimmed(path)) == trimmed(path),
    decreases path.len(),
{
    a_piece_starts_within_its_path(path);
    if !(path.len() <= 1 || !idle(path.skip(piece_start(path) as int))) {
        lemma_trimmed_twice(cut(path));
    }
}

/// Whether a name can be that of one entry of a directory.
pub open spec fn names_an_entry(name: Seq<u8>) -> bool {
    !idle(name) && forall|i: int| 0 <= i < name.len() ==> (#[trigger] name[i]) != '/' as u8
}

/// The last piece of a path starts behind its last separator.
proof fn lemma_last_piece(front: Seq<u8>, name: Seq<u8>)
    requires
        front.len() > 0,
        front.last() == '/' as u8,
        forall|i: int| 0 <= i < name.len() ==> (#[trigger] name[i]) != '/' as u8,
    ensures
        piece_start(front + name) == front.len(),
    decreases name.len(),
{
    let path = front + name;
    if name.len() == 0 {
        assert(path =~= front);
    } else {
        assert(path.last() == name.last());
        assert(name.last() == name[name.len() - 1]);
        assert(path.drop_last() =~= front + name.drop_last());
        lemma_last_piece(front, name.drop_last());
    }
}

/// What holds an entry of a directory is that directory.
pub proof fn an_entry_sits_in_its_directory(directory: Seq<u8>, name: Seq<char>)
    requires
        absolute(directory),
        names_an_entry(bytes_of(name)),
    ensures
        above(entry_in(directory, name)) == seq![trimmed(directory)] + above(trimmed(directory)),
{
    let path = entry_in(directory, name);
    let front = if directory.last() == '/' as u8 { directory } else { directory.push('/' as u8) };
    let tail = bytes_of(name);
    assert(path =~= front + tail);
    lemma_last_piece(front, tail);
    assert(path.skip(front.len() as int) =~= tail);
    assert(trimmed(path) == path);
    lemma_trimmed(directory);
    if directory.last() == '/' as u8 {
        assert(piece_start(directory) == directory.len());
        assert(directory.skip(directory.len() as int).len() == 0);
        if directory.len() > 1 {
            assert(cut(path) =~= cut(directory));
        } else {
            assert(cut(path) =~= directory);
        }
    } else {
        assert(directory.len() > 1);
        assert(cut(path) =~= directory);
    }
    assert(absolute(path));
}

/// A separator at the end of a directory's path, and a piece that stands for the
/// directory itself, change nothing; a piece that names an entry is kept.
pub proof fn pieces_that_name_nothing_are_dropped(directory: Seq<u8>, name: Seq<u8>)
    requires
        absolute(directory),
    ensures
        trimmed(directory.push(0x2f)) == trimmed(directory),
        trimmed(directory.push(0x2f) + seq![0x2eu8]) == trimmed(directory),
        names_an_entry(name) ==> trimmed(directory.push(0x2f) + name) == directory.push(0x2f) + name,
        names_an_entry(name) ==> holder(directory.push(0x2f) + name) == Some(trimmed(directory)),
{
    assert('/' as u8 == 0x2f && '.' as u8 == 0x2e);
    let front = directory.push(0x2f);
    let dotted = front + seq![0x2eu8];
    assert(front.last() == 0x2f);
    assert(front.skip(front.len() as int).len() == 0);
    assert(cut(front) =~= directory);
    lemma_last_piece(front, seq![0x2eu8]);
    assert(dotted.skip(front.len() as int) =~= seq![0x2eu8]);
    assert(cut(dotted) =~= directory);
    if names_an_entry(name) {
        lemma_last_piece(front, name);
        assert((front + name).skip(front.len() as int) =~= name);
        assert(cut(front + name) =~= directory);
    }
}

} // verus!
