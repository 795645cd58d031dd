//! The authorization store: who may open the door, who maintains the list.
//!
//! The store owns one `Config` together with the path of the file it was
//! loaded from. The file is read and parsed at startup, outside this library;
//! the store is handed the parsed value. Mutations update the in-memory list
//! and are expected to be followed by a full write-back of the config to the
//! same path, again outside this library; a failed write-back does not roll
//! the in-memory change back.

use crate::text::dec_digits;
use crate::text::u64_to_string;
use vstd::prelude::*;
use vstd::string::StringExecFns;

verus! {

/// One entry of the authorization list: a display name and the operator's
/// numeric identity on the command transport. Entries are unique by nothing:
/// duplicate names and duplicate ids are tolerated; removal by name takes the
/// first match.
pub struct AuthorizedUser {
    pub name: String,
    pub id: u64,
}

/// The rendering of one authorization entry: the name, then the id in
/// decimal, as in `Alice (42)`.
pub open spec fn user_rendering(name: Seq<char>, id: u64) -> Seq<char> {
    name + " ("@ + dec_digits(id as nat) + ")"@
}

impl AuthorizedUser {
    /// Renders the entry as `name (id)`.
    pub fn render(&self) -> (r: String)
        ensures
            r@ == user_rendering(self.name@, self.id),
    {
        let mut s = self.name.clone();
        s.append(" (");
        let id_text = u64_to_string(self.id);
        s.append(id_text.as_str());
        s.append(")");
        s
    }
}

/// The authorization state: the single distinguished maintainer identity,
/// fixed at load time, and the ordered list of authorized users. A maintainer
/// may also appear in the list; either fact alone grants door-open rights.
pub struct Config {
    pub maintainer_id: u64,
    pub authorized_users: Vec<AuthorizedUser>,
}

/// True when `id` is the maintainer identity.
pub open spec fn spec_is_maintainer(cfg: Config, id: u64) -> bool {
    id == cfg.maintainer_id
}

/// True when some entry of the list carries `id`.
pub open spec fn has_user_id(users: Seq<AuthorizedUser>, id: u64) -> bool {
    exists|i: int| 0 <= i < users.len() && users[i].id == id
}

/// True when `id` may open the door: it is the maintainer or it appears in
/// the list of authorized users.
pub open spec fn door_authorized(maintainer_id: u64, users: Seq<AuthorizedUser>, id: u64) -> bool {
    id == maintainer_id || has_user_id(users, id)
}

/// Door-open eligibility under a whole config.
pub open spec fn spec_authorized_for_door(cfg: Config, id: u64) -> bool {
    door_authorized(cfg.maintainer_id, cfg.authorized_users@, id)
}

/// True when position `i` holds the first entry whose name is `name`.
pub open spec fn is_first_named(users: Seq<AuthorizedUser>, name: Seq<char>, i: int) -> bool {
    &&& 0 <= i < users.len()
    &&& users[i].name@ == name
    &&& forall|j: int| 0 <= j < i ==> users[j].name@ != name
}

/// True when some entry of the list carries `name`.
pub open spec fn has_user_named(users: Seq<AuthorizedUser>, name: Seq<char>) -> bool {
    exists|i: int| 0 <= i < users.len() && users[i].name@ == name
}

/// The position of the first entry named `name` (meaningful when one exists).
pub open spec fn first_named(users: Seq<AuthorizedUser>, name: Seq<char>) -> int {
    choose|i: int| is_first_named(users, name, i)
}

/// The list after removing the first entry named `name`; the list unchanged
/// when no entry carries that name.
pub open spec fn remove_first_named(users: Seq<AuthorizedUser>, name: Seq<char>) -> Seq<
    AuthorizedUser,
> {
    if has_user_named(users, name) {
        users.remove(first_named(users, name))
    } else {
        users
    }
}

/// The first position named `name` is unique, so `first_named` returns it.
pub proof fn lemma_first_named_unique(users: Seq<AuthorizedUser>, name: Seq<char>, i: int)
    requires
        is_first_named(users, name, i),
    ensures
        first_named(users, name) == i,
        has_user_named(users, name),
{
    assert(has_user_named(users, name));
    let m = first_named(users, name);
    assert(is_first_named(users, name, m));
    if m < i {
        assert(users[m].name@ != name);
    }
    if i < m {
        assert(users[i].name@ != name);
    }
}

/// The store: the live authorization state and the path it is persisted at.
pub struct ConfigStorage {
    file_path: String,
    cfg: Config,
}

impl ConfigStorage {
    /// The current authorization state.
    pub closed spec fn spec_config(&self) -> Config {
        self.cfg
    }

    /// The path of the backing file.
    pub closed spec fn spec_file_path(&self) -> Seq<char> {
        self.file_path@
    }

    /// Builds the store from the parsed config and the path it came from.
    /// Reading and parsing the file happen before this, outside the library.
    pub fn new(file_path: &str, cfg: Config) -> (r: ConfigStorage)
        ensures
            r.spec_config() == cfg,
            r.spec_file_path() == file_path@,
    {
        ConfigStorage { file_path: String::from_str(file_path), cfg }
    }

    /// The current config, for inspection.
    pub fn get_config(&self) -> (r: &Config)
        ensures
            *r == self.spec_config(),
    {
        &self.cfg
    }

    /// The path every mutation must be persisted to.
    pub fn get_file_path(&self) -> (r: &str)
        ensures
            r@ == self.spec_file_path(),
    {
        self.file_path.as_str()
    }

    /// True when `id` is the maintainer.
    pub fn is_maintainer(&self, id: u64) -> (r: bool)
        ensures
            r == spec_is_maintainer(self.spec_config(), id),
    {
        id == self.cfg.maintainer_id
    }

    /// True when `id` may open the door: it is the maintainer or it appears
    /// in the list of authorized users.
    pub fn is_authorized_for_door(&self, id: u64) -> (r: bool)
        ensures
            r == spec_authorized_for_door(self.spec_config(), id),
    {
        if id == self.cfg.maintainer_id {
            return true;
        }
        let n = self.cfg.authorized_users.len();
        let mut i: usize = 0;
        while i < n
            invariant
                i <= n,
                n == self.cfg.authorized_users@.len(),
                forall|j: int| 0 <= j < i ==> self.cfg.authorized_users@[j].id != id,
            decreases n - i,
        {
            if self.cfg.authorized_users[i].id == id {
                return true;
            }
            i = i + 1;
        }
        false
    }

    /// Appends a new authorized user to the in-memory list. The caller must
    /// persist the updated config afterwards; a persistence failure leaves
    /// the appended entry in place.
    pub fn add_user(&mut self, name: String, id: u64)
        ensures
            final(self).spec_config().maintainer_id == old(self).spec_config().maintainer_id,
            final(self).spec_config().authorized_users@ == old(
                self,
            ).spec_config().authorized_users@.push((AuthorizedUser { name, id })),
            final(self).spec_file_path() == old(self).spec_file_path(),
    {
        self.cfg.authorized_users.push(AuthorizedUser { name, id });
    }

    /// Removes the first entry whose name equals `name` exactly, and reports
    /// whether one was found; without a match the list stays as it was. The
    /// caller must persist after a successful removal, with the same
    /// non-rollback semantics as `add_user`.
    pub fn remove_user(&mut self, name: &String) -> (r: bool)
        ensures
            r == has_user_named(old(self).spec_config().authorized_users@, name@),
            final(self).spec_config().maintainer_id == old(self).spec_config().maintainer_id,
            final(self).spec_config().authorized_users@ == remove_first_named(
                old(self).spec_config().authorized_users@,
                name@,
            ),
            final(self).spec_file_path() == old(self).spec_file_path(),
    {
        let ghost users0 = self.cfg.authorized_users@;
        let n = self.cfg.authorized_users.len();
        let mut i: usize = 0;
        while i < n
            invariant
                i <= n,
                n == self.cfg.authorized_users@.len(),
                *self == *old(self),
                self.cfg.authorized_users@ == users0,
                forall|j: int| 0 <= j < i ==> users0[j].name@ != name@,
            decreases n - i,
        {
            if self.cfg.authorized_users[i].name == *name {
                proof {
                    lemma_first_named_unique(users0, name@, i as int);
                }
                self.cfg.authorized_users.remove(i);
                return true;
            }
            i = i + 1;
        }
        proof {
            assert(!has_user_named(users0, name@));
        }
        false
    }
}

/// Adding an entry with a fresh name and a previously unauthorized id grants
/// that id door-open rights, and removing the entry by its name revokes them
/// again, leaving every other entry untouched.
pub proof fn lemma_authorization_flip(
    maintainer_id: u64,
    users: Seq<AuthorizedUser>,
    user: AuthorizedUser,
)
    requires
        !door_authorized(maintainer_id, users, user.id),
        forall|i: int| 0 <= i < users.len() ==> users[i].name@ != user.name@,
    ensures
        door_authorized(maintainer_id, users.push(user), user.id),
        remove_first_named(users.push(user), user.name@) == users,
        !door_authorized(maintainer_id, remove_first_named(users.push(user), user.name@), user.id),
{
    let pushed = users.push(user);
    assert(pushed[users.len() as int] == user);
    assert(has_user_id(pushed, user.id));
    assert(is_first_named(pushed, user.name@, users.len() as int));
    lemma_first_named_unique(pushed, user.name@, users.len() as int);
    assert(pushed.remove(users.len() as int) =~= users);
}

} // verus!
