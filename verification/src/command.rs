//! The commands of the front end, as far as they decide anything.
//!
//! A command here does not touch a file, a process or a window. It says
//! what is to be done, in values that the caller acts on, and it says what
//! is to be answered once the caller reports what came of it.

use crate::bus::{EventForwarder, EventKind, Subscription};
use crate::error::{description, SupervisionError};
use crate::forwarder::ForwarderState;
pub use crate::plugin::PluginItem;
use crate::plugin::{
    is_descriptor, is_descriptor_name, library_name, upload_path, Change, FileOp, FileOpView,
    PluginChange, PluginDirs, PluginItemView,
};
use crate::restart::{begin, RestartAction};
use crate::supervisor::ProcessSupervisor;
use crate::text::{join, joined, replace};
use crate::worker::{WorkerRole, PROVIDER_CHILD_NAME, WRAPPER_CHILD_NAME};
use vstd::prelude::*;
use vstd::string::*;

verus! {

/// The answer to a plugin that was added.
pub const PLUGIN_ADDED: &'static str = "插件添加成功！";

/// The greeting for `name`.
pub fn greet(name: &str) -> (greeting: String)
    ensures
        greeting@ == "Hello, "@ + name@ + "! You've been greeted from Rust!"@,
{
    let mut greeting = String::from_str("Hello, ");
    greeting.append(name);
    greeting.append("! You've been greeted from Rust!");
    greeting
}

/// The upload of a plugin: the descriptor is written first, then the
/// library, under the descriptor's name with `.dll` for `.json`; the wrapper
/// is down meanwhile.
pub fn upload_plugin(
    dirs: &PluginDirs,
    json_file: Vec<u8>,
    dll_file: Vec<u8>,
    json_filename: String,
) -> (change: PluginChange)
    ensures
        change@ == (Change {
            workers: seq![WorkerRole::Wrapper.name_spec()],
            steps: seq![
                FileOpView::Write {
                    path: upload_path(dirs.conf_dir@, dirs.bin_dir@, json_filename@),
                    contents: json_file@,
                },
                FileOpView::Write {
                    path: upload_path(dirs.conf_dir@, dirs.bin_dir@, library_name(json_filename@)),
                    contents: dll_file@,
                },
            ],
            done: 0,
            failure: None,
        }),
{
    let dll_filename = replace(json_filename.as_str(), ".json", ".dll");
    let mut steps: Vec<FileOp> = Vec::new();
    steps.push(FileOp::Write { path: dirs.upload_path(json_filename.as_str()), contents: json_file });
    steps.push(FileOp::Write { path: dirs.upload_path(dll_filename.as_str()), contents: dll_file });
    let change = PluginChange::new(steps);
    assert(change@.steps =~= seq![steps@[0]@, steps@[1]@]);
    change
}

/// The answer to an upload. The failure of a write is answered with its
/// reason; else the failure of the restart, with its description; else
/// the upload is confirmed, or answered with the empty text where the
/// writes were not all made.
pub open spec fn upload_answer(change: Change, restart: Result<(), Seq<char>>) -> Result<
    Seq<char>,
    Seq<char>,
> {
    match change.failure {
        Some(reason) => Err(reason),
        None => match restart {
            Err(text) => Err(text),
            Ok(_) => if change.complete() {
                Ok(PLUGIN_ADDED@)
            } else {
                Ok(Seq::empty())
            },
        },
    }
}

/// What a restart came to, as the answers speak of it: a change that broke
/// off is answered by the change itself, so it counts as no failure here.
pub open spec fn restart_text(restart: Result<(), SupervisionError>) -> Result<(), Seq<char>> {
    match restart {
        Err(e) => if e@ is MutationFailed {
            Ok(())
        } else {
            Err(description(e@))
        },
        Ok(_) => Ok(()),
    }
}

/// Answers an upload once the restart around it is over.
pub fn upload_reply(change: &PluginChange, restart: &Result<(), SupervisionError>) -> (answer:
    Result<String, String>)
    ensures
        match upload_answer(change@, restart_text(*restart)) {
            Ok(text) => answer matches Ok(t) && t@ == text,
            Err(text) => answer matches Err(t) && t@ == text,
        },
{
    match change.failure() {
        Some(reason) => Err(reason.clone()),
        None => match restart {
            Err(SupervisionError::MutationFailed) | Ok(_) => if change.is_complete() {
                Ok(String::from_str(PLUGIN_ADDED))
            } else {
                Ok(String::new())
            },
            Err(e) => Err(e.describe()),
        },
    }
}

/// The removal of a plugin: the descriptor is removed first, then the
/// library, which has the descriptor's name with `.dll` for `.json`; the
/// wrapper is down meanwhile.
pub fn del_plugins(dirs: &PluginDirs, filename: String) -> (change: PluginChange)
    ensures
        change@ == (Change {
            workers: seq![WorkerRole::Wrapper.name_spec()],
            steps: seq![
                FileOpView::Remove { path: joined(dirs.conf_dir@, filename@) },
                FileOpView::Remove { path: joined(dirs.bin_dir@, library_name(filename@)) },
            ],
            done: 0,
            failure: None,
        }),
{
    let dll_filename = replace(filename.as_str(), ".json", ".dll");
    let mut steps: Vec<FileOp> = Vec::new();
    steps.push(FileOp::Remove { path: join(dirs.conf_dir.as_str(), filename.as_str()) });
    steps.push(FileOp::Remove { path: join(dirs.bin_dir.as_str(), dll_filename.as_str()) });
    let change = PluginChange::new(steps);
    assert(change@.steps =~= seq![steps@[0]@, steps@[1]@]);
    change
}

/// The answer to a removal: the reason for which a removal failed; else the
/// description of the restart's failure; else the empty text.
pub open spec fn removal_answer(change: Change, restart: Result<(), Seq<char>>) -> Seq<char> {
    match change.failure {
        Some(reason) => reason,
        None => match restart {
            Err(text) => text,
            Ok(_) => Seq::empty(),
        },
    }
}

/// Answers a removal once the restart around it is over.
pub fn removal_reply(change: &PluginChange, restart: &Result<(), SupervisionError>) -> (answer:
    String)
    ensures
        answer@ == removal_answer(change@, restart_text(*restart)),
{
    match change.failure() {
        Some(reason) => reason.clone(),
        None => match restart {
            Err(SupervisionError::MutationFailed) | Ok(_) => String::new(),
            Err(e) => e.describe(),
        },
    }
}

/// Logging out: the provider and the wrapper are restarted, in that order,
/// with nothing changed in between.
pub fn logout(supervisor: &mut ProcessSupervisor) -> (action: RestartAction)
    ensures
        (final(supervisor)@, action@) == begin(
            old(supervisor)@,
            seq![WorkerRole::Provider.name_spec(), WorkerRole::Wrapper.name_spec()],
        ),
        final(supervisor)@.well_formed(),
{
    let mut names: Vec<String> = Vec::new();
    names.push(String::from_str(PROVIDER_CHILD_NAME));
    names.push(String::from_str(WRAPPER_CHILD_NAME));
    assert(crate::supervisor::names_of(names@) =~= seq![
        WorkerRole::Provider.name_spec(),
        WorkerRole::Wrapper.name_spec(),
    ]);
    supervisor.begin_restart(names)
}

/// Subscribes an observer to the QR image.
pub fn watch_qrcode() -> (forwarder: EventForwarder)
    ensures
        forwarder@ == (Subscription { kind: EventKind::QrCode, state: ForwarderState::Active }),
{
    EventForwarder::new(EventKind::QrCode)
}

/// Subscribes an observer to the login signal.
pub fn init_process() -> (forwarder: EventForwarder)
    ensures
        forwarder@ == (Subscription { kind: EventKind::Login, state: ForwarderState::Active }),
{
    EventForwarder::new(EventKind::Login)
}

/// Subscribes an observer to the wrapper's log.
pub fn wrapper_logs() -> (forwarder: EventForwarder)
    ensures
        forwarder@ == (Subscription { kind: EventKind::WrapperLogs, state: ForwarderState::Active }),
{
    EventForwarder::new(EventKind::WrapperLogs)
}

/// A file that was found in the directory of the descriptors: its name,
/// and what reading and parsing it gave.
#[derive(Debug, PartialEq, Eq)]
pub struct DescriptorFile {
    pub file_name: String,
    pub parsed: Result<PluginItem, String>,
}

/// The list of plugins that a sequence of found files gives: one item for
/// each descriptor, in the order found, with the file's name filled in. A
/// file that is no descriptor is passed over. The first descriptor that
/// could not be read or parsed fails the whole listing, with its reason.
pub open spec fn listing(found: Seq<DescriptorFile>) -> Result<Seq<PluginItemView>, Seq<char>>
    decreases found.len(),
{
    if found.len() == 0 {
        Ok(Seq::empty())
    } else {
        let last = found.last();
        match listing(found.drop_last()) {
            Err(reason) => Err(reason),
            Ok(items) => if !is_descriptor_name(last.file_name@) {
                Ok(items)
            } else {
                match last.parsed {
                    Ok(item) => Ok(
                        items.push(PluginItemView { filename: Some(last.file_name@), ..item@ }),
                    ),
                    Err(reason) => Err(reason@),
                }
            },
        }
    }
}

/// Lists the plugins whose descriptors were found.
pub fn get_plugins(found: Vec<DescriptorFile>) -> (plugins: Result<Vec<PluginItem>, String>)
    ensures
        match listing(found@) {
            Ok(items) => plugins matches Ok(list) && list@.map_values(|item: PluginItem| item@)
                == items,
            Err(reason) => plugins matches Err(text) && text@ == reason,
        },
{
    let mut list: Vec<PluginItem> = Vec::new();
    let ghost total = found@;
    proof {
        assert(list@.map_values(|item: PluginItem| item@) =~= Seq::<PluginItemView>::empty());
        assert(total.take(0) =~= Seq::<DescriptorFile>::empty());
    }
    for entry in it: found
        invariant
            it.seq() == total,
            listing(total.take(it.index() as int)) == Ok::<Seq<PluginItemView>, Seq<char>>(
                list@.map_values(|item: PluginItem| item@),
            ),
    {
        let ghost at = it.index() as int;
        proof {
            assert(total.take(at + 1).drop_last() =~= total.take(at));
            assert(total.take(at + 1).last() == entry);
        }
        let DescriptorFile { file_name, parsed } = entry;
        if is_descriptor(file_name.as_str()) {
            match parsed {
                Ok(item) => {
                    let ghost before = list@.map_values(|item: PluginItem| item@);
                    let PluginItem { name, privilege, filename: _ } = item;
                    list.push(PluginItem { name, privilege, filename: Some(file_name) });
                    proof {
                        assert(list@.map_values(|item: PluginItem| item@) =~= before.push(
                            PluginItemView { filename: Some(file_name@), ..item@ },
                        ));
                    }
                },
                Err(reason) => {
                    proof {
                        lemma_listing_fails_for_good(total, at + 1);
                        assert(total.take(total.len() as int) =~= total);
                    }
                    return Err(reason);
                },
            }
        }
    }
    proof {
        assert(total.take(total.len() as int) =~= total);
    }
    Ok(list)
}

/// A listing that has failed on the first `upto` files fails, with the same
/// reason, on all of them.
proof fn lemma_listing_fails_for_good(found: Seq<DescriptorFile>, upto: int)
    requires
        0 <= upto <= found.len(),
        listing(found.take(upto)) is Err,
    ensures
        listing(found) == listing(found.take(upto)),
    decreases found.len() - upto,
{
    if upto < found.len() {
        assert(found.take(upto + 1).drop_last() =~= found.take(upto));
        lemma_listing_fails_for_good(found, upto + 1);
    } else {
        assert(found.take(upto) =~= found);
    }
}

} // verus!
