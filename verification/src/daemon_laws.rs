//! How a broker comes up: its command line, its paths, its socket and its peers.
use vstd::prelude::*;

use crate::args::{ArgError, ArgumentView, CommandLine, Invocation, Options};
use crate::auth::{AuthError, PeerIdentity, SameUidAuthorizer};
use crate::connection::{greet, on_decoded, on_response, on_worker_lost, ClientError, ConnectionStep, WorkerLoss};
use crate::doctor::JournalRead;
use crate::frame::{FrameError, StreamFault};
use crate::ipc::{BrokerErrorKind, BrokerRequest, BrokerResponse};
use crate::paths::{
    accept_paths, private_directory_in, resolve_paths_from, runtime_base, Bar, DirectoryEvent, DirectoryFacts,
    DirectoryStep, Paths, Vetting,
};
use crate::startup::{StartEvent, StartStep};
use crate::transport::{unlinks, BindError, BindEvent, BindStep, Entry, Probe, Removal, SocketIdentity};

verus! {

/// The flags of the broker hold no equals sign and are not help flags.
proof fn lemma_flags()
    ensures
        "--socket"@ != "--journal"@,
        !crate::args::asks_for_help("--socket"@),
        !crate::args::asks_for_help("--journal"@),
        crate::args::equals_sign("--socket"@, 0) is None,
        crate::args::equals_sign("--journal"@, 0) is None,
        crate::args::flag_shaped("--socket"@),
        crate::args::flag_shaped("--journal"@),
        crate::args::flag_shaped("--help"@),
        forall|i: int| 0 <= i < "--socket"@.len() ==> (#[trigger] "--socket"@[i]) != '=',
        forall|i: int| 0 <= i < "--journal"@.len() ==> (#[trigger] "--journal"@[i]) != '=',
{
    reveal_strlit("--socket");
    reveal_strlit("--journal");
    reveal_strlit("--help");
    reveal_strlit("-h");
    assert("--socket"@.len() == 8 && "--journal"@.len() == 9 && "--help"@.len() == 6 && "-h"@.len() == 2);
    reveal_with_fuel(crate::args::equals_sign, 12);
}

/// A flag that was not given before takes the value behind it for its own
/// location, leaves the other location as it was, and reading goes on behind the
/// value; given again it is refused.
pub proof fn a_flag_takes_the_value_behind_it(
    value: Seq<char>,
    rest: Seq<ArgumentView>,
    earlier: Seq<char>,
    other: Option<Seq<char>>,
)
    requires
        value.len() > 0,
        value[0] != '-',
    ensures
        crate::args::read(Seq::empty(), other, Some(earlier)) == (CommandLine::Run {
            socket: other,
            journal: Some(earlier),
        }),
        crate::args::read(
            seq![ArgumentView::Text("--socket"@), ArgumentView::Text(value)] + rest,
            None,
            other,
        ) == crate::args::read(rest, Some(value), other),
        crate::args::read(
            seq![ArgumentView::Text("--journal"@), ArgumentView::Text(value)] + rest,
            other,
            None,
        ) == crate::args::read(rest, other, Some(value)),
        crate::args::read(seq![ArgumentView::Text("--socket"@)] + rest, Some(earlier), other) == CommandLine::Repeated(
            "--socket"@,
        ),
        crate::args::read(seq![ArgumentView::Text("--journal"@)] + rest, other, Some(earlier)) == CommandLine::Repeated(
            "--journal"@,
        ),
{
    lemma_flags();
    reveal_strlit("--help");
    reveal_strlit("-h");
    assert("--help"@[0] == '-' && "-h"@[0] == '-');
    let socket = seq![ArgumentView::Text("--socket"@), ArgumentView::Text(value)] + rest;
    let journal = seq![ArgumentView::Text("--journal"@), ArgumentView::Text(value)] + rest;
    assert(socket.skip(2) =~= rest);
    assert(journal.skip(2) =~= rest);
    assert(!crate::args::flag_shaped(value));
    reveal_with_fuel(crate::args::read, 2);
}

/// The order of the two flags does not matter.
pub proof fn the_order_of_the_flags_does_not_matter(socket: Seq<char>, journal: Seq<char>)
    requires
        socket.len() > 0 && socket[0] != '-',
        journal.len() > 0 && journal[0] != '-',
    ensures
        crate::args::read(
            seq![
                ArgumentView::Text("--socket"@),
                ArgumentView::Text(socket),
                ArgumentView::Text("--journal"@),
                ArgumentView::Text(journal),
            ],
            None,
            None,
        ) == (CommandLine::Run { socket: Some(socket), journal: Some(journal) }),
        crate::args::read(
            seq![
                ArgumentView::Text("--journal"@),
                ArgumentView::Text(journal),
                ArgumentView::Text("--socket"@),
                ArgumentView::Text(socket),
            ],
            None,
            None,
        ) == (CommandLine::Run { socket: Some(socket), journal: Some(journal) }),
{
    let s = seq![ArgumentView::Text("--socket"@), ArgumentView::Text(socket)];
    let j = seq![ArgumentView::Text("--journal"@), ArgumentView::Text(journal)];
    a_flag_takes_the_value_behind_it(socket, j, journal, None);
    a_flag_takes_the_value_behind_it(journal, s, socket, None);
    a_flag_takes_the_value_behind_it(journal, Seq::empty(), journal, Some(socket));
    a_flag_takes_the_value_behind_it(socket, Seq::empty(), journal, Some(journal));
    assert(s + Seq::empty() =~= s);
    assert(j + Seq::empty() =~= j);
    assert(s + j =~= seq![
        ArgumentView::Text("--socket"@),
        ArgumentView::Text(socket),
        ArgumentView::Text("--journal"@),
        ArgumentView::Text(journal),
    ]);
    assert(j + s =~= seq![
        ArgumentView::Text("--journal"@),
        ArgumentView::Text(journal),
        ArgumentView::Text("--socket"@),
        ArgumentView::Text(socket),
    ]);
    assert(crate::args::read(Seq::empty(), Some(socket), Some(journal)) == (CommandLine::Run {
        socket: Some(socket),
        journal: Some(journal),
    }));
}

/// A command line is refused for a flag without a value, for an argument that is
/// not known and for one that is not text, and a help flag in the place of a flag
/// asks for the usage, whatever follows.
pub proof fn a_mistyped_command_line_is_refused(
    argument: Seq<char>,
    rest: Seq<ArgumentView>,
    socket: Option<Seq<char>>,
    journal: Option<Seq<char>>,
)
    ensures
        crate::args::read(seq![ArgumentView::Text("--help"@)] + rest, socket, journal) == CommandLine::Help,
        crate::args::read(seq![ArgumentView::Text("-h"@)] + rest, socket, journal) == CommandLine::Help,
        crate::args::read(seq![ArgumentView::NotUnicode(argument)] + rest, socket, journal) == CommandLine::NotUnicode(
            argument,
        ),
        crate::args::read(seq![ArgumentView::Text("--socket"@)], None, journal) == CommandLine::MissingValue(
            "--socket"@,
        ),
        crate::args::read(seq![ArgumentView::Text("--journal"@)], socket, None) == CommandLine::MissingValue(
            "--journal"@,
        ),
        crate::args::read(
            seq![ArgumentView::Text("--socket"@), ArgumentView::NotUnicode(argument)] + rest,
            None,
            journal,
        ) == CommandLine::NotUnicode(argument),
        crate::args::read(
            seq![ArgumentView::Text("--socket"@), ArgumentView::Text(Seq::empty())] + rest,
            None,
            journal,
        ) == CommandLine::MissingValue("--socket"@),
        argument.len() == 0 || argument[0] != '-' ==> crate::args::read(
            seq![ArgumentView::Text(argument)] + rest,
            socket,
            journal,
        ) == CommandLine::Unrecognized(argument),
{
    lemma_flags();
    reveal_strlit("--socket");
    reveal_strlit("--journal");
    reveal_strlit("--help");
    reveal_strlit("-h");
    assert("--socket"@[0] == '-' && "--journal"@[0] == '-' && "--help"@[0] == '-' && "-h"@[0] == '-');
    assert("--socket"@.len() == 8 && "--journal"@.len() == 9 && "--help"@.len() == 6 && "-h"@.len() == 2);
    assert((seq![ArgumentView::Text("--help"@)] + rest)[0] == ArgumentView::Text("--help"@));
    assert((seq![ArgumentView::Text("-h"@)] + rest)[0] == ArgumentView::Text("-h"@));
    assert((seq![ArgumentView::Text(argument)] + rest)[0] == ArgumentView::Text(argument));
    let unread = seq![ArgumentView::Text("--socket"@), ArgumentView::NotUnicode(argument)] + rest;
    let hollow = seq![ArgumentView::Text("--socket"@), ArgumentView::Text(Seq::empty())] + rest;
    assert(unread[0] == ArgumentView::Text("--socket"@) && unread[1] == ArgumentView::NotUnicode(argument));
    assert(hollow[0] == ArgumentView::Text("--socket"@) && hollow[1] == ArgumentView::Text(Seq::empty()));
    lemma_flag_is_a_prefix(argument);
}

/// A flag is a prefix of its argument.
proof fn lemma_flag_is_a_prefix(argument: Seq<char>)
    ensures
        crate::args::flag_of(argument).len() <= argument.len(),
        crate::args::flag_of(argument).len() > 0 ==> crate::args::flag_of(argument)[0] == argument[0],
{
    lemma_equals_sign_is_inside(argument, 0);
}

/// The first equals sign stands inside its argument.
proof fn lemma_equals_sign_is_inside(argument: Seq<char>, from: int)
    requires
        0 <= from,
    ensures
        crate::args::equals_sign(argument, from) matches Some(at) ==> from <= at < argument.len(),
    decreases argument.len() - from,
{
    if from < argument.len() {
        lemma_equals_sign_is_inside(argument, from + 1);
    }
}

/// A parsed command line says of each location what was read for that location,
/// and every refusal names what was refused.
pub proof fn a_parsed_command_line_keeps_its_locations_apart(
    outcome: Result<Invocation, ArgError>,
    socket: Option<Seq<char>>,
    journal: Option<Seq<char>>,
    named: Seq<char>,
)
    ensures
        crate::args::parsed(outcome, (CommandLine::Run { socket, journal })) ==> (outcome matches Ok(Invocation::Run(
            options,
        )) && (options.socket is Some <==> socket is Some) && (options.journal is Some <==> journal is Some) && (socket
            is Some ==> options.socket->0@ == socket->0) && (journal is Some ==> options.journal->0@ == journal->0)),
        crate::args::parsed(outcome, CommandLine::Help) <==> outcome == Ok::<Invocation, ArgError>(Invocation::Help),
        crate::args::parsed(outcome, CommandLine::MissingValue(named)) ==> (outcome matches Err(ArgError::MissingValue(
            flag,
        )) && flag@ == named),
        crate::args::parsed(outcome, CommandLine::Repeated(named)) ==> (outcome matches Err(ArgError::Repeated(flag))
            && flag@ == named),
        crate::args::parsed(outcome, CommandLine::Unrecognized(named)) ==> (outcome matches Err(
            ArgError::Unrecognized { argument },
        ) && argument@ == named),
        crate::args::parsed(outcome, CommandLine::NotUnicode(named)) ==> (outcome matches Err(
            ArgError::NotUnicode { argument },
        ) && argument@ == named),
{
}

/// A location given on the command line wins over one that is inherited, and both
/// over the default; the lock stays in the private directory whatever is given.
pub proof fn a_given_location_wins(
    options: Options,
    socket_variable: Option<Vec<u8>>,
    journal_variable: Option<Vec<u8>>,
    directory: Vec<u8>,
    paths: Paths,
)
    requires
        call_ensures(resolve_paths_from, (options, socket_variable, journal_variable, &directory), paths),
    ensures
        options.socket matches Some(given) ==> paths.socket@ == vstd::utf8::encode_utf8(given@),
        options.socket is None ==> (socket_variable matches Some(inherited) ==> paths.socket@ == inherited@),
        options.socket is None && socket_variable is None ==> paths.socket@ == crate::paths::entry_in(
            directory@,
            "broker.sock"@,
        ),
        options.journal matches Some(given) ==> paths.journal@ == vstd::utf8::encode_utf8(given@),
        options.journal is None ==> (journal_variable matches Some(inherited) ==> paths.journal@ == inherited@),
        options.journal is None && journal_variable is None ==> paths.journal@ == crate::paths::entry_in(
            directory@,
            "journal.sqlite"@,
        ),
        paths.lock@ == crate::paths::entry_in(directory@, "broker.lock"@),
{
}

/// An entry's path is its directory's, one separator where the directory does not
/// end in one, and its name.
pub proof fn an_entry_is_named_behind_one_separator(directory: Seq<u8>, name: Seq<char>)
    ensures
        directory.len() > 0 && directory.last() != 0x2f ==> crate::paths::entry_in(directory, name) == directory + seq![
            0x2fu8,
        ] + vstd::utf8::encode_utf8(name),
        directory.len() > 0 && directory.last() == 0x2f ==> crate::paths::entry_in(directory, name) == directory
            + vstd::utf8::encode_utf8(name),
        crate::paths::absolute(directory) <==> directory.len() > 0 && directory[0] == 0x2f,
{
    assert('/' as u8 == 0x2f);
    assert(directory.push(0x2f) =~= directory + seq![0x2fu8]);
}

/// The inherited runtime directory is used only by a broker that is not root, and
/// only where it is an absolute path.
pub proof fn an_inherited_base_is_used_with_care(inherited: Option<Vec<u8>>, broker_uid: u32, base: Vec<u8>)
    requires
        call_ensures(runtime_base, (inherited, broker_uid), base),
    ensures
        broker_uid == 0 ==> base@ == vstd::utf8::encode_utf8("/run"@),
        inherited is None ==> base@ == vstd::utf8::encode_utf8("/run"@),
        inherited matches Some(path) ==> (path@.len() == 0 || path@[0] != 0x2f ==> base@ == vstd::utf8::encode_utf8(
            "/run"@,
        )),
        inherited matches Some(path) ==> (broker_uid != 0 && path@.len() > 0 && path@[0] == 0x2f ==> base@ == path@),
{
    assert('/' as u8 == 0x2f);
}

/// A directory passes a bar exactly where it is a directory of the broker's or of
/// root's, and no other user can reach it, or can write it unless it is sticky.
pub proof fn a_directory_passes_its_bar(facts: DirectoryFacts, broker_uid: u32)
    ensures
        crate::paths::sound(facts, broker_uid, Bar::OwnerOnly) <==> facts.is_dir && (facts.uid == broker_uid || facts.uid
            == 0) && facts.mode & 0o077 == 0,
        crate::paths::sound(facts, broker_uid, Bar::NoForeignWrite) <==> facts.is_dir && (facts.uid == broker_uid
            || facts.uid == 0) && (facts.mode & 0o022 == 0 || facts.mode & 0o1000 != 0),
        crate::paths::private(facts, broker_uid) <==> facts.is_dir && facts.uid == broker_uid && facts.mode & 0o777
            == 0o700,
{
}

/// The directory at that place was inspected and passes, the innermost the
/// stricter bar.
pub open spec fn passes(chain: Seq<Option<DirectoryFacts>>, at: int, broker_uid: u32) -> bool {
    &&& at < chain.len()
    &&& chain[at] matches Some(facts)
    &&& facts.is_dir
    &&& facts.uid == broker_uid || facts.uid == 0
    &&& if at == 0 {
        facts.mode & 0o077 == 0
    } else {
        facts.mode & 0o022 == 0 || facts.mode & 0o1000 != 0
    }
}

/// A path is accepted exactly where it has directories above it and every one of
/// them was inspected and passes; otherwise the first that does not is named.
pub proof fn a_path_is_accepted_exactly_when_its_directories_pass(
    path: Seq<u8>,
    chain: Seq<Option<DirectoryFacts>>,
    broker_uid: u32,
    vetting: Vetting,
)
    requires
        crate::paths::path_stands(path, chain, broker_uid, vetting),
    ensures
        vetting == Vetting::Sound <==> crate::paths::above(path).len() > 0 && forall|i: int|
            0 <= i < crate::paths::above(path).len() ==> #[trigger] passes(chain, i, broker_uid),
        vetting == Vetting::NotAnEntry <==> crate::paths::above(path).len() == 0,
        path.len() == 0 || path[0] != 0x2f ==> vetting == Vetting::NotAnEntry,
        vetting matches Vetting::Uninspected(at) ==> at < crate::paths::above(path).len() && (at < chain.len()
            ==> chain[at as int] is None) && forall|i: int| 0 <= i < at ==> #[trigger] passes(chain, i, broker_uid),
        vetting matches Vetting::Refused(at) ==> at < chain.len() && chain[at as int] is Some && !passes(
            chain,
            at as int,
            broker_uid,
        ) && forall|i: int| 0 <= i < at ==> #[trigger] passes(chain, i, broker_uid),
{
    assert('/' as u8 == 0x2f);
    let count = crate::paths::above(path).len();
    let found = crate::paths::found_at(chain, count);
    assert forall|i: int| 0 <= i < count implies (#[trigger] crate::paths::link_sound(
        found,
        i,
        broker_uid,
        Bar::OwnerOnly,
    ) <==> passes(chain, i, broker_uid)) by {
        if i < chain.len() {
            assert(found[i] == chain[i]);
            if let Some(facts) = chain[i] {
                a_directory_passes_its_bar(facts, broker_uid);
            }
        } else {
            assert(found[i] is None);
        }
    }
    if count > 0 {
        if vetting == Vetting::Sound {
            assert forall|i: int| 0 <= i < count implies #[trigger] passes(chain, i, broker_uid) by {
                assert(crate::paths::link_sound(found, i, broker_uid, Bar::OwnerOnly));
            }
        }
        if let Vetting::Uninspected(at) = vetting {
            assert(!crate::paths::link_sound(found, at as int, broker_uid, Bar::OwnerOnly));
            assert(!passes(chain, at as int, broker_uid));
            assert forall|i: int| 0 <= i < at implies #[trigger] passes(chain, i, broker_uid) by {
                assert(crate::paths::link_sound(found, i, broker_uid, Bar::OwnerOnly));
            }
        }
        if let Vetting::Refused(at) = vetting {
            assert(!crate::paths::link_sound(found, at as int, broker_uid, Bar::OwnerOnly));
            assert(!passes(chain, at as int, broker_uid));
            assert forall|i: int| 0 <= i < at implies #[trigger] passes(chain, i, broker_uid) by {
                assert(crate::paths::link_sound(found, i, broker_uid, Bar::OwnerOnly));
            }
        }
    }
}

/// The directory at that place was inspected and no other user can write it.
pub open spec fn carries_safely(chain: Seq<Option<DirectoryFacts>>, at: int, broker_uid: u32) -> bool {
    &&& at < chain.len()
    &&& chain[at] matches Some(facts)
    &&& facts.is_dir
    &&& facts.uid == broker_uid || facts.uid == 0
    &&& facts.mode & 0o022 == 0 || facts.mode & 0o1000 != 0
}

/// A base directory is sound exactly where it and every directory above it was
/// inspected and cannot be written by another user.
pub proof fn a_base_is_sound_exactly_when_its_lineage_is(
    base: Seq<u8>,
    chain: Seq<Option<DirectoryFacts>>,
    broker_uid: u32,
    vetting: Vetting,
)
    requires
        crate::paths::base_stands(base, chain, broker_uid, vetting),
    ensures
        vetting == Vetting::Sound <==> forall|i: int|
            0 <= i <= crate::paths::above(base).len() ==> #[trigger] carries_safely(chain, i, broker_uid),
{
    let count = crate::paths::above(base).len() + 1;
    let found = crate::paths::found_at(chain, count);
    assert forall|i: int| 0 <= i < count implies (#[trigger] crate::paths::link_sound(
        found,
        i,
        broker_uid,
        Bar::NoForeignWrite,
    ) <==> carries_safely(chain, i, broker_uid)) by {
        if i < chain.len() {
            assert(found[i] == chain[i]);
            if let Some(facts) = chain[i] {
                a_directory_passes_its_bar(facts, broker_uid);
            }
        } else {
            assert(found[i] is None);
        }
    }
    if vetting == Vetting::Sound {
        assert forall|i: int| 0 <= i < count implies #[trigger] carries_safely(chain, i, broker_uid) by {
            assert(crate::paths::link_sound(found, i, broker_uid, Bar::NoForeignWrite));
        }
    }
    if let Vetting::Uninspected(at) = vetting {
        assert(!crate::paths::link_sound(found, at as int, broker_uid, Bar::NoForeignWrite));
        assert(!carries_safely(chain, at as int, broker_uid));
    }
    if let Vetting::Refused(at) = vetting {
        assert(!crate::paths::link_sound(found, at as int, broker_uid, Bar::NoForeignWrite));
        assert(!carries_safely(chain, at as int, broker_uid));
    }
}

/// Paths are accepted only where both are sound, and the socket's fault is told
/// before the journal's.
pub proof fn both_paths_have_to_be_sound(
    paths: Paths,
    socket: Vetting,
    journal: Vetting,
    accepted: Result<Paths, Vetting>,
)
    requires
        call_ensures(accept_paths, (paths, socket, journal), accepted),
    ensures
        accepted is Ok <==> socket == Vetting::Sound && journal == Vetting::Sound,
        accepted matches Ok(same) ==> same == paths,
        accepted matches Err(fault) ==> fault != Vetting::Sound && (fault == if socket == Vetting::Sound {
            journal
        } else {
            socket
        }),
{
}

/// The private directory is ready only after it was inspected and found to be the
/// broker's own with mode 700, and it is created only under sound ancestors.
pub proof fn a_private_directory_is_inspected_before_use(event: DirectoryEvent, broker_uid: u32, step: DirectoryStep)
    requires
        call_ensures(private_directory_in, (event, broker_uid), step),
    ensures
        step == DirectoryStep::Ready <==> (event matches DirectoryEvent::Inspected(facts) && facts.is_dir && facts.uid
            == broker_uid && facts.mode & 0o777 == 0o700),
        step == DirectoryStep::Create <==> event == DirectoryEvent::Vetted(Vetting::Sound),
        step == DirectoryStep::Restrict <==> event == DirectoryEvent::Created,
        step == DirectoryStep::Inspect <==> event == DirectoryEvent::AlreadyExists || event
            == DirectoryEvent::Restricted,
        step matches DirectoryStep::RefuseAncestor(vetting) ==> event == DirectoryEvent::Vetted(vetting) && vetting
            != Vetting::Sound,
        step == DirectoryStep::RefuseDirectory ==> event is Inspected,
{
}

/// The files beside a journal are named behind its own path.
pub proof fn a_side_file_is_named_after_its_journal(path: Seq<u8>)
    ensures
        crate::paths::side_file(path, 0) == path + vstd::utf8::encode_utf8("-journal"@),
        crate::paths::side_file(path, 1) == path + vstd::utf8::encode_utf8("-wal"@),
        crate::paths::side_file(path, 2) == path + vstd::utf8::encode_utf8("-shm"@),
{
}

/// Where nothing fails, a broker resolves its paths, takes its lock, restricts
/// and opens its journal, binds its socket, serves, and has ended, in this order.
pub proof fn a_start_takes_its_full_course(steps: Seq<StartStep>, events: Seq<StartEvent>)
    requires
        crate::startup::leads_through(steps, events),
        events.len() == 6,
        forall|i: int| 0 <= i < events.len() ==> (#[trigger] events[i]) == StartEvent::Done,
    ensures
        steps == seq![
            StartStep::ResolvePaths,
            StartStep::TakeLock,
            StartStep::RestrictJournal,
            StartStep::OpenJournal,
            StartStep::Bind,
            StartStep::Serve,
            StartStep::Ended,
        ],
{
    assert(crate::startup::follows_on(steps, events, 0));
    assert(crate::startup::follows_on(steps, events, 1));
    assert(crate::startup::follows_on(steps, events, 2));
    assert(crate::startup::follows_on(steps, events, 3));
    assert(crate::startup::follows_on(steps, events, 4));
    assert(crate::startup::follows_on(steps, events, 5));
}

/// A socket is bound only where nothing stands at its path or where a dead socket
/// was removed, and is ready as the very entry that was bound; a live endpoint, a
/// file that is not a socket and a fault each refuse the path.
pub proof fn a_bind_follows_what_is_found(event: BindEvent, step: BindStep)
    requires
        crate::transport::follows(event, step),
    ensures
        step is Bind <==> event == BindEvent::Found(Entry::Absent) || event == BindEvent::Removed(Removal::Removed)
            || event == BindEvent::Removed(Removal::Vanished),
        step is Probe <==> event == BindEvent::Found(Entry::Socket),
        step is Remove <==> event == BindEvent::Probed(Probe::Refused) || event == BindEvent::Probed(Probe::Vanished),
        step matches BindStep::Ready(identity) ==> event == BindEvent::Bound(Some(identity)),
        event matches BindEvent::Bound(Some(identity)) ==> step == BindStep::Ready(identity),
        event == BindEvent::Bound(None) ==> step == BindStep::Undo(BindError::NoLongerASocket),
        event == BindEvent::Found(Entry::Other) ==> step == BindStep::Refuse(BindError::NotASocket),
        event == BindEvent::Probed(Probe::Connected) ==> step == BindStep::Refuse(BindError::AlreadyServed),
        event matches BindEvent::Found(Entry::Unknown(why)) ==> step == BindStep::Refuse(BindError::System(why)),
        event matches BindEvent::Probed(Probe::Failed(why)) ==> step == BindStep::Refuse(BindError::System(why)),
        event matches BindEvent::Removed(Removal::Failed(why)) ==> step == BindStep::Refuse(BindError::System(why)),
{
}

/// An entry is unlinked exactly where it is on the same device with the same inode
/// as the one that was bound.
pub proof fn only_the_bound_entry_is_unlinked(bound: SocketIdentity, found: Option<SocketIdentity>, yes: bool)
    requires
        call_ensures(unlinks, (bound, found), yes),
    ensures
        yes <==> (found matches Some(entry) && entry.dev == bound.dev && entry.ino == bound.ino),
{
}

/// Only a peer of the trusted uid is read from; any other is told that it is not
/// authorized and nothing about the uids.
pub proof fn a_peer_is_greeted_by_its_uid(authorizer: SameUidAuthorizer, peer: PeerIdentity, step: ConnectionStep)
    requires
        call_ensures(greet::<SameUidAuthorizer>, (&authorizer, &peer), step),
    ensures
        step is Read <==> peer.uid == authorizer.trusted(),
        peer.uid != authorizer.trusted() ==> (step matches ConnectionStep::Refuse { response, reason } && (response
            matches BrokerResponse::Error { error } && error.kind == BrokerErrorKind::Unauthenticated
            && error.message@ == "peer is not authorized"@) && reason == (AuthError::ForeignUid {
            expected: authorizer.trusted(),
            actual: peer.uid,
        })),
{
}

/// What a frame comes to: a body is decoded as it was read, a disconnect closes,
/// an over-long frame is answered and closed, an empty one is answered, and a
/// broken stream fails as it broke.
pub proof fn a_frame_is_answered_for_what_it_is(read: Result<Option<Vec<u8>>, FrameError>, step: ConnectionStep)
    requires
        crate::connection::answers_frame(read, step),
    ensures
        read matches Ok(Some(body)) ==> step == ConnectionStep::Decode(body),
        read matches Ok(None) ==> step is Close,
        read matches Err(FrameError::TooLarge { length }) ==> (step matches ConnectionStep::ReplyAndClose(
            BrokerResponse::Error { error },
        ) && error.kind == BrokerErrorKind::Malformed && error.message@ == "frame length "@
            + crate::text::decimal_digits(length as nat) + " exceeds the maximum"@),
        read matches Err(FrameError::Io(StreamFault::Empty)) ==> (step matches ConnectionStep::Reply(
            BrokerResponse::Error { error },
        ) && error.kind == BrokerErrorKind::Malformed && error.message@ == "empty frame"@),
        read matches Err(FrameError::Io(fault)) ==> (!(fault is Empty) ==> step == ConnectionStep::Fail(
            FrameError::Io(fault),
        )),
{
}

/// A request that was decoded is dispatched as it is; one that was not is answered
/// with why, cut short, and the connection is kept.
pub proof fn a_request_is_dispatched_as_it_was_decoded(decoded: Result<BrokerRequest, String>, step: ConnectionStep)
    requires
        call_ensures(on_decoded, (decoded,), step),
    ensures
        decoded matches Ok(request) ==> step == ConnectionStep::Dispatch(request),
        decoded matches Err(why) ==> (step matches ConnectionStep::Reply(BrokerResponse::Error { error }) && error.kind
            == BrokerErrorKind::Malformed && error.message@ == "invalid request: "@ + crate::text::quoted(why@)),
{
}

/// A client takes the body of the answer as it was read, and an early end for a
/// closed connection; a lost worker is an internal fault.
pub proof fn a_client_takes_the_answer_as_it_is(
    read: Result<Option<Vec<u8>>, FrameError>,
    body: Result<Vec<u8>, ClientError>,
    loss: WorkerLoss,
    response: BrokerResponse,
)
    requires
        call_ensures(on_response, (read,), body),
        call_ensures(on_worker_lost, (loss,), response),
    ensures
        body is Ok <==> read matches Ok(Some(_)),
        read matches Ok(Some(bytes)) ==> body == Ok::<Vec<u8>, ClientError>(bytes),
        read matches Ok(None) ==> body == Err::<Vec<u8>, ClientError>(ClientError::Closed),
        read matches Err(error) ==> body == Err::<Vec<u8>, ClientError>(ClientError::Frame(error)),
        response matches BrokerResponse::Error { error } && error.kind == BrokerErrorKind::Internal,
{
}

/// Diagnostics call the journal ready exactly where it could be read, say how many
/// experiments dangle where some do, and otherwise say why it could not be read.
pub proof fn diagnostics_say_how_the_journal_stands(read: JournalRead)
    ensures
        read matches Ok(Some(rows)) ==> (crate::journal_scan::dangling(rows@).len() == 0 ==> crate::doctor::journal_words(
            read,
        ) == "ready"@),
        read matches Ok(Some(rows)) ==> (crate::journal_scan::dangling(rows@).len() > 0 ==> crate::doctor::journal_words(
            read,
        ) == "ready ("@ + crate::text::decimal_digits(crate::journal_scan::dangling(rows@).len())
            + " dangling experiment(s) missing a terminal outcome)"@),
        read matches Ok(None) ==> crate::doctor::journal_words(read)
            == "unavailable (experiment_journal table missing)"@,
        read matches Err(why) ==> crate::doctor::journal_words(read) == "unavailable ("@ + why@ + ")"@,
        crate::doctor::status_words(Some(read)) == crate::doctor::journal_words(read),
        crate::doctor::status_words(None) == "missing (no experiments journaled yet)"@,
{
}

} // verus!
