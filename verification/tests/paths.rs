//! Where the broker may keep its socket, journal, and lock.

use std::cell::RefCell;
use std::collections::{BTreeMap, BTreeSet};

use fpsmaxxing::args::Options;
use fpsmaxxing::paths::{
    accept_paths, directories_above, lineage, private_directory_in, resolve_paths_from,
    runtime_base, side_files, variables_to_consult, vet_ancestors, vet_directory,
    vet_resolved_path, vet_resolved_paths, Bar, DirectoryEvent, DirectoryFacts, DirectoryStep,
    Paths, Refusal, StartError, Vetting, FALLBACK_RUNTIME_BASE, JOURNAL_ENV, LOCK_FILE_NAME,
    PRIVATE_DIR_MODE, PRIVATE_DIR_NAME, ROOT_UID, SOCKET_ENV,
};
use fpsmaxxing::startup::{first_step, next_step, StartEvent, StartStep};
use fpsmaxxing::transport::{
    bind, unlinks, BindError, BindEvent, BindStep, Entry, Probe, Removal, SocketIdentity,
};

/// The variable the unprivileged gateway and CLI use for their journal.
const GATEWAY_JOURNAL_ENV: &str = "FPSMAXXING_JOURNAL_PATH";

/// An unprivileged uid, so `XDG_RUNTIME_DIR` is eligible at all.
const SESSION_UID: u32 = 1000;

/// Directories in memory, by path.
struct Tree {
    entries: BTreeMap<String, DirectoryFacts>,
}

/// Why the tree refused; `true` where a path or directory failed its bar.
#[derive(Debug, PartialEq)]
struct Denied;

impl Tree {
    /// A root and the owner-only directory `/base` of the session's own.
    fn new() -> Self {
        let mut tree = Self {
            entries: BTreeMap::new(),
        };
        tree.put("/", true, ROOT_UID, 0o755);
        tree.put("/base", true, SESSION_UID, PRIVATE_DIR_MODE);
        tree
    }

    fn put(&mut self, path: &str, is_dir: bool, uid: u32, mode: u32) {
        self.entries
            .insert(path.to_owned(), DirectoryFacts { is_dir, uid, mode });
    }

    fn chmod(&mut self, path: &str, mode: u32) {
        self.entries.get_mut(path).expect("the entry exists").mode = mode;
    }

    /// What stands at each of the directories.
    fn facts(&self, directories: &[Vec<u8>]) -> Vec<Option<DirectoryFacts>> {
        directories
            .iter()
            .map(|directory| {
                let text = String::from_utf8(directory.clone()).expect("a UTF-8 path");
                self.entries.get(&text).copied()
            })
            .collect()
    }

    /// Creates and vets the private directory under `base`.
    fn private_directory(&mut self, base: &str, uid: u32) -> Result<String, Denied> {
        let directory = format!("{base}/{PRIVATE_DIR_NAME}");
        let chain = self.facts(&lineage(&base.as_bytes().to_vec()));
        let bytes = base.as_bytes().to_vec();
        let mut event = DirectoryEvent::Vetted(vet_ancestors(&bytes, &chain, uid));
        loop {
            event = match private_directory_in(event, uid) {
                DirectoryStep::Create => {
                    if self.entries.contains_key(&directory) {
                        DirectoryEvent::AlreadyExists
                    } else {
                        // The inherited umask cuts the mode that was asked for.
                        self.put(&directory, true, uid, 0o500);
                        DirectoryEvent::Created
                    }
                }
                DirectoryStep::Restrict => {
                    self.chmod(&directory, PRIVATE_DIR_MODE);
                    DirectoryEvent::Restricted
                }
                DirectoryStep::Inspect => DirectoryEvent::Inspected(self.entries[&directory]),
                DirectoryStep::Ready => return Ok(directory),
                DirectoryStep::RefuseAncestor(vetting) => {
                    assert_ne!(vetting, Vetting::Sound);
                    return Err(Denied);
                }
                DirectoryStep::RefuseDirectory => return Err(Denied),
            };
        }
    }

    fn resolve(
        &mut self,
        options: Options,
        base: &str,
        lookup: impl Fn(&str) -> Option<String>,
    ) -> Result<Paths, Denied> {
        let mut variables = BTreeMap::new();
        for name in variables_to_consult(&options) {
            if let Some(value) = lookup(name) {
                variables.insert(name, value.into_bytes());
            }
        }
        let directory = self.private_directory(base, SESSION_UID)?.into_bytes();
        let paths = resolve_paths_from(
            options,
            variables.get(SOCKET_ENV).cloned(),
            variables.get(JOURNAL_ENV).cloned(),
            &directory,
        );
        let socket = self.facts(&directories_above(&paths.socket));
        let journal = self.facts(&directories_above(&paths.journal));
        vet_resolved_paths(paths, &socket, &journal, SESSION_UID).map_err(|_| Denied)
    }
}

fn options(socket: Option<&str>, journal: Option<&str>) -> Options {
    Options {
        socket: socket.map(str::to_owned),
        journal: journal.map(str::to_owned),
    }
}

/// A lookup that answers every name, and records which were asked for.
fn recording_lookup(seen: &RefCell<BTreeSet<String>>) -> impl Fn(&str) -> Option<String> + '_ {
    move |name| {
        seen.borrow_mut().insert(name.to_owned());
        Some(format!("/base/{name}"))
    }
}

/// A lookup that answers only the socket variable.
fn socket_env_lookup(value: &str) -> impl Fn(&str) -> Option<String> + '_ {
    move |name| (name == SOCKET_ENV).then_some(value.to_owned())
}

#[test]
fn the_journal_never_comes_from_the_gateway_environment() {
    let seen = RefCell::new(BTreeSet::new());
    let paths = Tree::new()
        .resolve(Options::default(), "/base", recording_lookup(&seen))
        .expect("both paths come from the environment");

    assert_eq!(paths.socket, format!("/base/{SOCKET_ENV}").into_bytes());
    assert_eq!(paths.journal, format!("/base/{JOURNAL_ENV}").into_bytes());
    assert_eq!(JOURNAL_ENV, "FPSMAXXING_BROKER_JOURNAL_PATH");
    assert!(
        !seen.borrow().contains(GATEWAY_JOURNAL_ENV),
        "the privileged broker must not read the gateway's journal variable"
    );
    assert_eq!(
        *seen.borrow(),
        [SOCKET_ENV.to_owned(), JOURNAL_ENV.to_owned()]
            .into_iter()
            .collect()
    );
}

#[test]
fn explicit_flags_win_over_the_environment() {
    let seen = RefCell::new(BTreeSet::new());
    let paths = Tree::new()
        .resolve(
            options(Some("/base/b.sock"), Some("/base/j.sqlite")),
            "/base",
            recording_lookup(&seen),
        )
        .expect("explicit flags name both endpoints");
    assert_eq!(paths.socket, b"/base/b.sock");
    assert_eq!(paths.journal, b"/base/j.sqlite");
    assert!(
        seen.borrow().is_empty(),
        "a flag must not consult the environment at all"
    );
}

#[test]
fn the_lock_and_an_unset_socket_stay_in_the_private_directory() {
    let mut tree = Tree::new();
    for journal in ["/base/a.sqlite", "/base/b.sqlite"] {
        let paths = tree
            .resolve(options(None, Some(journal)), "/base", |_| None)
            .expect("an owner-only base is sound");
        assert_eq!(paths.socket, b"/base/fpsmaxxing/broker.sock");
        assert_eq!(
            paths.lock,
            format!("/base/{PRIVATE_DIR_NAME}/{LOCK_FILE_NAME}").into_bytes()
        );
    }
}

#[test]
fn the_private_directory_is_established_even_when_both_paths_are_overridden() {
    let mut tree = Tree::new();
    let paths = tree
        .resolve(
            options(Some("/base/b.sock"), Some("/base/j.sqlite")),
            "/base",
            |_| None,
        )
        .expect("an owner-only base is sound");
    assert_eq!(paths.lock, b"/base/fpsmaxxing/broker.lock");
    let facts = tree.entries["/base/fpsmaxxing"];
    assert!(facts.is_dir);
    assert_eq!(
        facts.mode & 0o777,
        PRIVATE_DIR_MODE,
        "the lock must live somewhere no other user can take it first"
    );
}

#[test]
fn a_relative_path_from_the_environment_is_refused() {
    assert_eq!(
        Tree::new().resolve(
            options(None, Some("/base/j.sqlite")),
            "/base",
            socket_env_lookup("broker.sock"),
        ),
        Err(Denied)
    );
}

#[test]
fn a_path_from_the_environment_under_a_writable_parent_is_refused() {
    let mut tree = Tree::new();
    tree.put("/base/reachable", true, SESSION_UID, 0o777);
    let lookup = socket_env_lookup("/base/reachable/broker.sock");
    assert_eq!(
        tree.resolve(options(None, Some("/base/j.sqlite")), "/base", &lookup),
        Err(Denied)
    );

    // The same override is accepted once nobody else can write its parent.
    tree.chmod("/base/reachable", PRIVATE_DIR_MODE);
    let paths = tree
        .resolve(options(None, Some("/base/j.sqlite")), "/base", &lookup)
        .expect("an owner-only parent is sound");
    assert_eq!(paths.socket, b"/base/reachable/broker.sock");
}

#[test]
fn a_sticky_directory_may_not_hold_the_socket_or_the_journal() {
    let mut tree = Tree::new();
    tree.put("/base/shared", true, SESSION_UID, 0o1777);
    for (socket, journal) in [
        ("/base/shared/broker.sock", "/base/j.sqlite"),
        ("/base/b.sock", "/base/shared/j.sqlite"),
    ] {
        assert_eq!(
            tree.resolve(options(Some(socket), Some(journal)), "/base", |_| None),
            Err(Denied)
        );
    }

    // Higher up, sticky is sound: it prevents the swap of the owner-only
    // directory that does hold them.
    tree.put("/base/shared/fpsmaxxing", true, SESSION_UID, 0o700);
    let paths = tree
        .resolve(
            options(
                Some("/base/shared/fpsmaxxing/broker.sock"),
                Some("/base/shared/fpsmaxxing/j.sqlite"),
            ),
            "/base/shared",
            |_| None,
        )
        .expect("an owner-only directory under a sticky ancestor is sound");
    assert_eq!(paths.socket, b"/base/shared/fpsmaxxing/broker.sock");
    assert_eq!(paths.journal, b"/base/shared/fpsmaxxing/j.sqlite");
}

#[test]
fn a_traversable_directory_may_not_hold_the_socket_or_the_journal() {
    let mut tree = Tree::new();
    tree.put("/base/run", true, SESSION_UID, 0o755);
    for (socket, journal) in [
        ("/base/run/broker.sock", "/base/j.sqlite"),
        ("/base/b.sock", "/base/run/j.sqlite"),
    ] {
        assert_eq!(
            tree.resolve(options(Some(socket), Some(journal)), "/base", |_| None),
            Err(Denied)
        );
    }
    tree.put("/base/run/fpsmaxxing", true, SESSION_UID, 0o700);
    let paths = tree
        .resolve(
            options(
                Some("/base/run/fpsmaxxing/broker.sock"),
                Some("/base/run/fpsmaxxing/j.sqlite"),
            ),
            "/base/run",
            |_| None,
        )
        .expect("an owner-only directory under a traversable ancestor is sound");
    assert_eq!(paths.socket, b"/base/run/fpsmaxxing/broker.sock");
    assert_eq!(paths.journal, b"/base/run/fpsmaxxing/j.sqlite");
}

#[test]
fn a_flag_path_is_vetted_the_same_way_as_the_environment() {
    assert_eq!(
        Tree::new().resolve(
            options(Some("broker.sock"), Some("/base/j.sqlite")),
            "/base",
            |_| None,
        ),
        Err(Denied)
    );
}

#[test]
fn an_unusable_runtime_directory_falls_back_to_run() {
    let fallback = FALLBACK_RUNTIME_BASE.as_bytes();
    let base = |variable: Option<&str>| {
        runtime_base(variable.map(|text| text.as_bytes().to_vec()), SESSION_UID)
    };
    assert_eq!(base(None), fallback);
    assert_eq!(base(Some("")), fallback);
    assert_eq!(
        base(Some("run/user/1000")),
        fallback,
        "a relative runtime directory would resolve against the inherited cwd"
    );
    assert_eq!(base(Some("/run/user/1000")), b"/run/user/1000");
}

#[test]
fn a_privileged_broker_ignores_the_inherited_runtime_directory() {
    assert_eq!(
        runtime_base(Some(b"/tmp/attacker-owned".to_vec()), ROOT_UID),
        FALLBACK_RUNTIME_BASE.as_bytes(),
        "root must not follow a runtime directory its caller chose"
    );
}

#[test]
fn a_base_under_a_writable_ancestor_is_refused() {
    let mut tree = Tree::new();
    tree.put("/outer", true, SESSION_UID, 0o777);
    tree.put("/outer/base", true, SESSION_UID, PRIVATE_DIR_MODE);
    assert_eq!(
        tree.private_directory("/outer/base", SESSION_UID),
        Err(Denied)
    );
    assert!(
        !tree.entries.contains_key("/outer/base/fpsmaxxing"),
        "nothing may be created under a refused ancestor"
    );

    // Restoring the ancestor, and making it sticky instead, both pass.
    for mode in [0o755, 0o1777] {
        tree.chmod("/outer", mode);
        tree.private_directory("/outer/base", SESSION_UID)
            .expect("a sound ancestor chain is accepted");
    }
}

#[test]
fn a_symlinked_base_is_refused() {
    let mut tree = Tree::new();
    tree.put("/base/link", false, SESSION_UID, 0o777);
    assert_eq!(
        tree.private_directory("/base/link", SESSION_UID),
        Err(Denied)
    );
}

#[test]
fn a_missing_private_directory_is_created_owner_only() {
    let mut tree = Tree::new();
    let directory = tree
        .private_directory("/base", SESSION_UID)
        .expect("the directory should be created");
    assert_eq!(directory, "/base/fpsmaxxing");
    let facts = tree.entries[&directory];
    assert!(facts.is_dir);
    assert_eq!(facts.mode & 0o777, PRIVATE_DIR_MODE);
}

#[test]
fn an_existing_owner_only_private_directory_is_reused() {
    let mut tree = Tree::new();
    tree.put("/base/fpsmaxxing", true, SESSION_UID, PRIVATE_DIR_MODE);
    assert_eq!(
        tree.private_directory("/base", SESSION_UID).as_deref(),
        Ok("/base/fpsmaxxing")
    );
}

#[test]
fn a_reachable_or_foreign_private_directory_is_refused() {
    let mut tree = Tree::new();
    tree.put("/base/fpsmaxxing", true, SESSION_UID, 0o755);
    assert_eq!(tree.private_directory("/base", SESSION_UID), Err(Denied));

    tree.put("/base/fpsmaxxing", true, SESSION_UID + 1, PRIVATE_DIR_MODE);
    assert_eq!(tree.private_directory("/base", SESSION_UID), Err(Denied));
}

#[test]
fn a_symlinked_private_directory_is_refused() {
    let mut tree = Tree::new();
    tree.put("/base/fpsmaxxing", false, SESSION_UID, PRIVATE_DIR_MODE);
    assert_eq!(tree.private_directory("/base", SESSION_UID), Err(Denied));
}

#[test]
fn the_first_unsound_directory_is_named() {
    let sound = |mode| {
        Some(DirectoryFacts {
            is_dir: true,
            uid: ROOT_UID,
            mode,
        })
    };
    let chain = vec![sound(0o700), sound(0o755), None, sound(0o777)];
    assert_eq!(
        vet_resolved_path(&b"/a/b/c/d".to_vec(), &chain, SESSION_UID),
        Vetting::Uninspected(2)
    );
    let chain = vec![sound(0o700), sound(0o777)];
    assert_eq!(
        vet_resolved_path(&b"/a/b".to_vec(), &chain, SESSION_UID),
        Vetting::Refused(1)
    );
    assert_eq!(
        vet_resolved_path(&b"/".to_vec(), &Vec::new(), SESSION_UID),
        Vetting::NotAnEntry
    );
    let foreign = DirectoryFacts {
        is_dir: true,
        uid: 2000,
        mode: 0o700,
    };
    assert!(!vet_directory(foreign, SESSION_UID, Bar::OwnerOnly));
    assert!(vet_directory(foreign, 2000, Bar::OwnerOnly));
}

fn some_paths() -> Paths {
    Paths {
        socket: b"/s/broker.sock".to_vec(),
        journal: b"/j/journal.sqlite".to_vec(),
        lock: b"/s/broker.lock".to_vec(),
    }
}

#[test]
fn paths_are_accepted_only_where_both_are_sound() {
    assert_eq!(
        accept_paths(some_paths(), Vetting::Sound, Vetting::Sound),
        Ok(some_paths())
    );
    assert_eq!(
        accept_paths(some_paths(), Vetting::Refused(1), Vetting::NotAnEntry),
        Err(Vetting::Refused(1))
    );
    assert_eq!(
        accept_paths(some_paths(), Vetting::Sound, Vetting::Uninspected(0)),
        Err(Vetting::Uninspected(0))
    );

    let own = |mode| {
        Some(DirectoryFacts {
            is_dir: true,
            uid: SESSION_UID,
            mode,
        })
    };
    let sound = vec![own(0o700), own(0o755)];
    let open = vec![own(0o755), own(0o755)];
    let vet = |socket: &Vec<_>, journal: &Vec<_>| {
        vet_resolved_paths(some_paths(), socket, journal, SESSION_UID)
    };
    assert_eq!(vet(&sound, &sound), Ok(some_paths()));
    assert_eq!(
        vet(&open, &open),
        Err(Refusal::Socket(Vetting::Refused(0)))
    );
    assert_eq!(
        vet(&sound, &open),
        Err(Refusal::Journal(Vetting::Refused(0)))
    );
    assert_eq!(
        vet(&sound, &Vec::new()),
        Err(Refusal::Journal(Vetting::Uninspected(0)))
    );
    // A directory of which nothing was found was not inspected.
    assert_eq!(
        vet(&vec![own(0o700)], &sound),
        Err(Refusal::Socket(Vetting::Uninspected(1)))
    );
    assert_eq!(
        vet_ancestors(&b"/run".to_vec(), &vec![own(0o755)], SESSION_UID),
        Vetting::Uninspected(1)
    );
    assert_eq!(
        vet_ancestors(&b"/run".to_vec(), &open, SESSION_UID),
        Vetting::Sound
    );
}

#[test]
fn the_directories_above_a_path_are_those_the_system_walks() {
    for path in [
        "/",
        "//",
        "/a",
        "/a/",
        "//a//b",
        "/a/b/c.sock",
        "/a/./b/.",
        "/./a",
        "/a/../b/c",
        "/a/b/..",
        "/.a/..b/c.",
        "/a/b///",
        "/.",
    ] {
        let bytes = path.as_bytes().to_vec();
        let walked: Vec<Vec<u8>> = std::path::Path::new(path)
            .ancestors()
            .map(|at| at.to_str().expect("a UTF-8 path").as_bytes().to_vec())
            .collect();
        assert_eq!(lineage(&bytes), walked, "{path}");
        assert_eq!(directories_above(&bytes), walked[1..], "{path}");
    }
    assert_eq!(
        directories_above(&b"/run/fpsmaxxing/broker.sock".to_vec()),
        [b"/run/fpsmaxxing".to_vec(), b"/run".to_vec(), b"/".to_vec()]
    );
    assert!(directories_above(&b"a/b".to_vec()).is_empty());
    assert!(directories_above(&Vec::new()).is_empty());
}

#[test]
fn a_broker_comes_up_in_order() {
    let mut step = first_step();
    let mut taken = Vec::new();
    while step != StartStep::Ended {
        taken.push(step);
        assert_eq!(next_step(step, StartEvent::Failed), StartStep::Stop);
        step = next_step(step, StartEvent::Done);
    }
    assert_eq!(
        taken,
        [
            StartStep::ResolvePaths,
            StartStep::TakeLock,
            StartStep::RestrictJournal,
            StartStep::OpenJournal,
            StartStep::Bind,
            StartStep::Serve,
        ]
    );
    assert_eq!(
        next_step(StartStep::Stop, StartEvent::Done),
        StartStep::Stop
    );
    assert_eq!(
        next_step(StartStep::Ended, StartEvent::Done),
        StartStep::Ended
    );
}

#[test]
fn start_errors_name_the_path() {
    for (error, words) in [
        (
            StartError::NotAnEntry,
            "/p must be an absolute path to an entry inside a directory",
        ),
        (
            StartError::Directory {
                broker_uid: 7,
                bar: Bar::OwnerOnly,
            },
            "/p must be a directory owned by uid 7 or root that no other user can reach it",
        ),
        (
            StartError::Directory {
                broker_uid: 7,
                bar: Bar::NoForeignWrite,
            },
            "/p must be a directory owned by uid 7 or root that no other user can write it",
        ),
        (
            StartError::Private { broker_uid: 7 },
            "/p must be a directory owned by uid 7 with mode 700",
        ),
        (
            StartError::Locked,
            "/p is held by a running broker; only one may own this machine's knobs",
        ),
        (
            StartError::Failed {
                action: "opened".to_owned(),
                error: "Permission denied".to_owned(),
            },
            "/p cannot be opened: Permission denied",
        ),
    ] {
        assert_eq!(error.message("/p"), words);
    }
}

#[test]
fn the_side_files_stand_beside_the_journal() {
    assert_eq!(
        side_files(&b"/base/\xff.sqlite".to_vec()),
        [
            b"/base/\xff.sqlite-journal".to_vec(),
            b"/base/\xff.sqlite-wal".to_vec(),
            b"/base/\xff.sqlite-shm".to_vec(),
        ]
    );
}

#[test]
fn bind_replaces_a_stale_socket() {
    assert!(matches!(
        bind(BindEvent::Found(Entry::Socket)),
        BindStep::Probe
    ));
    for probe in [Probe::Refused, Probe::Vanished] {
        assert!(matches!(bind(BindEvent::Probed(probe)), BindStep::Remove));
    }
    for removal in [Removal::Removed, Removal::Vanished] {
        assert!(matches!(
            bind(BindEvent::Removed(removal)),
            BindStep::Bind
        ));
    }
    let identity = SocketIdentity { dev: 1, ino: 2 };
    assert!(matches!(
        bind(BindEvent::Bound(Some(identity))),
        BindStep::Ready(bound) if bound == identity
    ));
    assert!(matches!(
        bind(BindEvent::Found(Entry::Absent)),
        BindStep::Bind
    ));
}

#[test]
fn bind_refuses_a_socket_a_live_broker_serves() {
    let BindStep::Refuse(error) = bind(BindEvent::Probed(Probe::Connected)) else {
        panic!("a second broker must not take over a served socket");
    };
    assert!(matches!(error, BindError::AlreadyServed));
    assert_eq!(
        error.message("/s"),
        "/s is already served by a running broker"
    );
}

#[test]
fn drop_spares_a_socket_this_transport_did_not_bind() {
    let bound = SocketIdentity { dev: 1, ino: 2 };
    assert!(unlinks(bound, Some(bound)));
    assert!(!unlinks(bound, Some(SocketIdentity { dev: 1, ino: 3 })));
    assert!(!unlinks(bound, Some(SocketIdentity { dev: 2, ino: 2 })));
    assert!(!unlinks(bound, None));
}

#[test]
fn bind_refuses_to_delete_a_non_socket_path() {
    let BindStep::Refuse(error) = bind(BindEvent::Found(Entry::Other)) else {
        panic!("a non-socket path must not be replaced");
    };
    assert!(matches!(error, BindError::NotASocket));
    assert_eq!(error.message("/s"), "/s exists and is not a socket");
}

#[test]
fn a_fault_during_the_bind_leaves_the_entry_alone() {
    for event in [
        BindEvent::Found(Entry::Unknown("no access".to_owned())),
        BindEvent::Probed(Probe::Failed("no access".to_owned())),
        BindEvent::Removed(Removal::Failed("no access".to_owned())),
    ] {
        let BindStep::Refuse(error) = bind(event) else {
            panic!("a fault must be reported");
        };
        assert_eq!(error.message("/s"), "no access");
    }
    let BindStep::Undo(error) = bind(BindEvent::Bound(None)) else {
        panic!("a replaced entry must be given up");
    };
    assert_eq!(error.message("/s"), "/s is no longer a socket");
}
