//! The command gate: decides, per inbound command, who may invoke it and what
//! happens, and renders every user-facing reply.
//!
//! Commands arrive parsed, together with the requester's identity, from an
//! external transport that this library treats as an opaque request/response
//! channel. Open-tier commands are for any requester; privileged commands
//! take effect only when the requester is the maintainer. The handlers here
//! decide and mutate the store; the caller performs what the returned action
//! asks for (send the replies, run the door sequence, persist the config,
//! write the audit line) outside the library.

use crate::config::has_user_named;
use crate::config::remove_first_named;
use crate::config::spec_is_maintainer;
use crate::config::user_rendering;
use crate::config::AuthorizedUser;
use crate::config::Config;
use crate::config::ConfigStorage;
use crate::text::dec_digits;
use crate::text::u64_to_string;
use vstd::prelude::*;
use vstd::string::StringExecFns;

verus! {

/// The requester of one inbound command, as the transport reports it: the
/// stable numeric identity, an optional short handle, and a full display
/// name.
pub struct Requester {
    pub id: u64,
    pub username: Option<String>,
    pub full_name: String,
}

/// The open tier: commands any requester may issue.
pub enum SimpleCommand {
    /// Show the help text.
    Help,
    /// Show the requester's own identity.
    MyId,
    /// Request door actuation.
    OpenDoor,
}

/// The privileged tier: commands that take effect only for the maintainer.
pub enum MaintainerCommand {
    /// List all authorized users as name+id pairs.
    ListUsers,
    /// Append a new authorized user.
    AddUser { name: String, id: u64 },
    /// Remove the first authorized user with exactly this name.
    RemoveUser { name: String },
    /// Send an arbitrary raw line to the modem, bypassing the door sequence.
    SendModemCmd { modem_cmd: String },
}

/// What an open-tier command asks the caller to do.
pub enum SimpleAction {
    /// Send the one reply.
    Reply { text: String },
    /// Door actuation granted: send the acknowledgement, run the door
    /// sequence, then report its outcome with `door_result_reply`; the audit
    /// line records who opened the door.
    OpenDoor { ack: String, audit: String },
    /// Door actuation denied: send the reply; the audit line records the
    /// attempt.
    DeniedDoor { reply: String, audit: String },
}

/// What a privileged command asks the caller to do.
pub enum MaintainerAction {
    /// The requester is not the maintainer: nothing happened, nothing is
    /// sent.
    Denied,
    /// Send the one reply.
    Reply { text: String },
    /// The store changed in memory: persist it, then reply with
    /// `persist_reply` for this change and the persistence outcome.
    Mutated { change: StoreChange },
    /// Send this raw line to the modem.
    SendModem { line: String },
}

/// Which mutation a privileged command applied, with the rendering its reply
/// is built from.
pub enum StoreChange {
    /// An entry was appended; `rendered` is its `name (id)` rendering.
    Added { rendered: String },
    /// The first entry of this name was removed.
    Removed { name: String },
}

/// The help text: both command tiers, one line per command.
pub open spec fn help_text() -> Seq<char> {
    "Simple commands:\n/help - shows this message.\n/my_id - shows your ID.\n/open_door - opens the door.\n\nMaintainer commands:\n/list_users - list IDs of authorized users.\n/add_user <name> <id> - add a new authorized user.\n/remove_user <name> - remove an authorized user by their name.\n/send_modem_cmd <cmd> - send a AT command to the modem."@
}

pub open spec fn door_opening_ack() -> Seq<char> {
    "Door is opening, hang on..."@
}

pub open spec fn door_success_reply() -> Seq<char> {
    "Door should be open. Welcome!"@
}

pub open spec fn door_failure_reply() -> Seq<char> {
    "Something went wrong"@
}

pub open spec fn door_denied_reply() -> Seq<char> {
    "You are not authorized to execute this command"@
}

/// The audit line for a granted door actuation.
pub open spec fn audit_granted(name: Seq<char>, id: u64) -> Seq<char> {
    "Door opened by "@ + user_rendering(name, id)
}

/// The audit line for a denied door actuation.
pub open spec fn audit_denied(name: Seq<char>, id: u64) -> Seq<char> {
    "Unauthorized door opening attempt from "@ + user_rendering(name, id)
}

/// True when position `i` holds the first entry carrying `id`.
pub open spec fn is_first_with_id(users: Seq<AuthorizedUser>, id: u64, i: int) -> bool {
    &&& 0 <= i < users.len()
    &&& users[i].id == id
    &&& forall|j: int| 0 <= j < i ==> users[j].id != id
}

/// The position of the first entry carrying `id` (meaningful when one
/// exists).
pub open spec fn first_with_id(users: Seq<AuthorizedUser>, id: u64) -> int {
    choose|i: int| is_first_with_id(users, id, i)
}

/// The first position carrying `id` is unique, so `first_with_id` returns
/// it.
proof fn lemma_first_with_id_unique(users: Seq<AuthorizedUser>, id: u64, i: int)
    requires
        is_first_with_id(users, id, i),
    ensures
        first_with_id(users, id) == i,
{
    let m = first_with_id(users, id);
    assert(is_first_with_id(users, id, m));
    if m < i {
        assert(users[m].id != id);
    }
    if i < m {
        assert(users[i].id != id);
    }
}

/// The best-effort display name of a requester: the store's recorded name
/// for the first entry carrying the requester's id, else the
/// transport-supplied handle, else the transport-supplied full name.
pub open spec fn spec_display_name(users: Seq<AuthorizedUser>, req: Requester) -> Seq<char> {
    if crate::config::has_user_id(users, req.id) {
        users[first_with_id(users, req.id)].name@
    } else if req.username is Some {
        req.username->0@
    } else {
        req.full_name@
    }
}

/// Resolves the display name a door-actuation audit line uses.
fn resolve_display_name(cfg: &Config, req: &Requester) -> (r: String)
    ensures
        r@ == spec_display_name(cfg.authorized_users@, *req),
{
    let n = cfg.authorized_users.len();
    let mut i: usize = 0;
    while i < n
        invariant
            i <= n,
            n == cfg.authorized_users@.len(),
            forall|j: int| 0 <= j < i ==> cfg.authorized_users@[j].id != req.id,
        decreases n - i,
    {
        if cfg.authorized_users[i].id == req.id {
            proof {
                lemma_first_with_id_unique(cfg.authorized_users@, req.id, i as int);
            }
            return cfg.authorized_users[i].name.clone();
        }
        i = i + 1;
    }
    match &req.username {
        Some(username) => username.clone(),
        None => req.full_name.clone(),
    }
}

/// Renders `name (id)` from the parts.
fn render_name_id(name: &str, id: u64) -> (r: String)
    ensures
        r@ == user_rendering(name@, id),
{
    let mut s = String::from_str(name);
    s.append(" (");
    let id_text = u64_to_string(id);
    s.append(id_text.as_str());
    s.append(")");
    s
}

/// Builds an audit line from its prefix and the rendered actor.
fn audit_line(prefix: &str, name: &str, id: u64) -> (r: String)
    ensures
        r@ == prefix@ + user_rendering(name@, id),
{
    let mut s = String::from_str(prefix);
    let rendered = render_name_id(name, id);
    s.append(rendered.as_str());
    s
}

/// Answers an open-tier command. Help and identity go to anyone. Door
/// actuation is granted exactly when the requester is door-authorized; the
/// caller then runs the sequence and reports with `door_result_reply`. Both
/// outcomes carry an audit line naming the requester, by the store's recorded
/// name when it has one.
pub fn simple_commands_handler(store: &ConfigStorage, requester: &Requester, cmd: &SimpleCommand)
    -> (r: SimpleAction)
    ensures
        (match cmd {
            SimpleCommand::Help => r matches SimpleAction::Reply { text } && text@ == help_text(),
            SimpleCommand::MyId => r matches SimpleAction::Reply { text } && text@ == dec_digits(
                requester.id as nat,
            ),
            SimpleCommand::OpenDoor => {
                let name = spec_display_name(store.spec_config().authorized_users@, *requester);
                if crate::config::spec_authorized_for_door(store.spec_config(), requester.id) {
                    r matches SimpleAction::OpenDoor { ack, audit } && ack@ == door_opening_ack()
                        && audit@ == audit_granted(name, requester.id)
                } else {
                    r matches SimpleAction::DeniedDoor { reply, audit } && reply@
                        == door_denied_reply() && audit@ == audit_denied(name, requester.id)
                }
            },
        }),
{
    match cmd {
        SimpleCommand::Help => SimpleAction::Reply {
            text: String::from_str(
                "Simple commands:\n/help - shows this message.\n/my_id - shows your ID.\n/open_door - opens the door.\n\nMaintainer commands:\n/list_users - list IDs of authorized users.\n/add_user <name> <id> - add a new authorized user.\n/remove_user <name> - remove an authorized user by their name.\n/send_modem_cmd <cmd> - send a AT command to the modem.",
            ),
        },
        SimpleCommand::MyId => SimpleAction::Reply { text: u64_to_string(requester.id) },
        SimpleCommand::OpenDoor => {
            let name = resolve_display_name(store.get_config(), requester);
            if store.is_authorized_for_door(requester.id) {
                SimpleAction::OpenDoor {
                    ack: String::from_str("Door is opening, hang on..."),
                    audit: audit_line("Door opened by ", name.as_str(), requester.id),
                }
            } else {
                SimpleAction::DeniedDoor {
                    reply: String::from_str("You are not authorized to execute this command"),
                    audit: audit_line(
                        "Unauthorized door opening attempt from ",
                        name.as_str(),
                        requester.id,
                    ),
                }
            }
        },
    }
}

/// The reply for a finished door sequence: a welcome on success, a generic
/// failure message (no raw error text) otherwise.
pub fn door_result_reply(ok: bool) -> (r: String)
    ensures
        ok ==> r@ == door_success_reply(),
        !ok ==> r@ == door_failure_reply(),
{
    if ok {
        String::from_str("Door should be open. Welcome!")
    } else {
        String::from_str("Something went wrong")
    }
}

/// The rendering of the whole user list, as in `[ Alice (42), Bob (7) ]`.
pub open spec fn users_listing(users: Seq<AuthorizedUser>) -> Seq<char> {
    "[ "@ + users_join(users) + " ]"@
}

/// The comma-separated renderings of the entries, in list order.
pub open spec fn users_join(users: Seq<AuthorizedUser>) -> Seq<char>
    decreases users.len(),
{
    if users.len() == 0 {
        Seq::empty()
    } else if users.len() == 1 {
        user_rendering(users[0].name@, users[0].id)
    } else {
        users_join(users.drop_last()) + ", "@ + user_rendering(users.last().name@, users.last().id)
    }
}

/// Renders the user list for the `list_users` reply.
fn render_user_list(users: &Vec<AuthorizedUser>) -> (r: String)
    ensures
        r@ == users_listing(users@),
{
    let mut joined = String::new();
    let n = users.len();
    let mut i: usize = 0;
    while i < n
        invariant
            i <= n,
            n == users@.len(),
            joined@ == users_join(users@.take(i as int)),
        decreases n - i,
    {
        if i > 0 {
            joined.append(", ");
        }
        let rendered = users[i].render();
        joined.append(rendered.as_str());
        proof {
            let taken = users@.take(i as int + 1);
            assert(taken.drop_last() =~= users@.take(i as int));
            assert(taken.last() == users@[i as int]);
            assert(joined@ =~= users_join(taken));
        }
        i = i + 1;
    }
    proof {
        assert(users@.take(n as int) =~= users@);
    }
    let mut out = String::from_str("[ ");
    out.append(joined.as_str());
    out.append(" ]");
    out
}

/// The `user not found` reply of a removal.
pub open spec fn not_found_reply(name: Seq<char>) -> Seq<char> {
    "User '"@ + name + "' not found."@
}

/// Answers a privileged command. A requester other than the maintainer gets
/// `Denied`: the store is untouched and nothing reaches the modem. For the
/// maintainer: listing renders the current entries; adding appends and
/// removing drops the first entry of that name, both leaving the rest of the
/// list as it was and asking the caller to persist; removing an unknown name
/// only reports it; a raw modem command is passed through unchanged.
pub fn maintainer_commands_handler(
    store: &mut ConfigStorage,
    requester_id: u64,
    cmd: MaintainerCommand,
) -> (r: MaintainerAction)
    ensures
        final(store).spec_file_path() == old(store).spec_file_path(),
        final(store).spec_config().maintainer_id == old(store).spec_config().maintainer_id,
        !spec_is_maintainer(old(store).spec_config(), requester_id) ==> (*final(store) == *old(
            store,
        ) && r is Denied),
        spec_is_maintainer(old(store).spec_config(), requester_id) ==> (match cmd {
            MaintainerCommand::ListUsers => *final(store) == *old(store) && (r
                matches MaintainerAction::Reply { text } && text@ == users_listing(
                old(store).spec_config().authorized_users@,
            )),
            MaintainerCommand::AddUser { name, id } => final(store).spec_config().authorized_users@
                == old(store).spec_config().authorized_users@.push(
                (AuthorizedUser { name, id }),
            ) && (r matches MaintainerAction::Mutated { change } && change
                matches StoreChange::Added { rendered } && rendered@ == user_rendering(name@, id)),
            MaintainerCommand::RemoveUser { name } => {
                if has_user_named(old(store).spec_config().authorized_users@, name@) {
                    final(store).spec_config().authorized_users@ == remove_first_named(
                        old(store).spec_config().authorized_users@,
                        name@,
                    ) && (r matches MaintainerAction::Mutated { change } && change
                        matches StoreChange::Removed { name: removed } && removed@ == name@)
                } else {
                    final(store).spec_config().authorized_users@ == old(
                        store,
                    ).spec_config().authorized_users@ && (r matches MaintainerAction::Reply { text }
                        && text@ == not_found_reply(name@))
                }
            },
            MaintainerCommand::SendModemCmd { modem_cmd } => *final(store) == *old(store) && (r
                matches MaintainerAction::SendModem { line } && line@ == modem_cmd@),
        }),
{
    if !store.is_maintainer(requester_id) {
        return MaintainerAction::Denied;
    }
    match cmd {
        MaintainerCommand::ListUsers => MaintainerAction::Reply {
            text: render_user_list(&store.get_config().authorized_users),
        },
        MaintainerCommand::AddUser { name, id } => {
            let rendered = render_name_id(name.as_str(), id);
            store.add_user(name, id);
            MaintainerAction::Mutated { change: StoreChange::Added { rendered } }
        },
        MaintainerCommand::RemoveUser { name } => {
            if store.remove_user(&name) {
                MaintainerAction::Mutated { change: StoreChange::Removed { name } }
            } else {
                let mut text = String::from_str("User '");
                text.append(name.as_str());
                text.append("' not found.");
                MaintainerAction::Reply { text }
            }
        },
        MaintainerCommand::SendModemCmd { modem_cmd } => MaintainerAction::SendModem {
            line: modem_cmd,
        },
    }
}

/// The reply for a persisted (or unpersisted) mutation. On a persistence
/// failure the change stays in memory, and the reply says so together with
/// the error's rendering, which the caller supplies in `err_text`.
pub fn persist_reply(change: &StoreChange, persist_ok: bool, err_text: &str) -> (r: String)
    ensures
        (match change {
            StoreChange::Added { rendered } => {
                if persist_ok {
                    r@ == "Authorized user '"@ + rendered@ + "' has been added."@
                } else {
                    r@ == "User '"@ + rendered@
                        + "' has been added, but an error occurred while saving: "@ + err_text@
                        + "."@
                }
            },
            StoreChange::Removed { name } => {
                if persist_ok {
                    r@ == "Authorized user '"@ + name@ + "' has been removed."@
                } else {
                    r@ == "User '"@ + name@
                        + "' has been removed, but an error occurred while saving: "@ + err_text@
                        + "."@
                }
            },
        }),
{
    match change {
        StoreChange::Added { rendered } => {
            if persist_ok {
                let mut s = String::from_str("Authorized user '");
                s.append(rendered.as_str());
                s.append("' has been added.");
                s
            } else {
                let mut s = String::from_str("User '");
                s.append(rendered.as_str());
                s.append("' has been added, but an error occurred while saving: ");
                s.append(err_text);
                s.append(".");
                s
            }
        },
        StoreChange::Removed { name } => {
            if persist_ok {
                let mut s = String::from_str("Authorized user '");
                s.append(name.as_str());
                s.append("' has been removed.");
                s
            } else {
                let mut s = String::from_str("User '");
                s.append(name.as_str());
                s.append("' has been removed, but an error occurred while saving: ");
                s.append(err_text);
                s.append(".");
                s
            }
        },
    }
}

} // verus!
