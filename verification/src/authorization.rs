//! Which client may make app API requests to which installed apps.
//!
//! The record is kept in memory and persisted by the host in
//! [`PERSISTED_FILE_NAME`] under the data root; [`AuthorizedAppClientsManager`]
//! holds the record and the file's path, and is told what the file holds when
//! the host has read it.

use vstd::prelude::*;
use crate::config::{join_path, path_join};
use crate::string_map::StringMap;

verus! {

broadcast use vstd::string::group_string_axioms;

/// Name of the file the authorizations are persisted to.
pub const PERSISTED_FILE_NAME: &'static str = "authorized_app_clients.msgpack";

/// A unique identifier representing the client instance.
/// For example if the client is an android app, the client id would be the package name
/// i.e. "org.holochain.androidserviceclient.app"
#[derive(Clone, Debug)]
pub struct ClientId(pub String);

/// The app ids of a list, as characters.
pub open spec fn app_ids_view(ids: Seq<String>) -> Seq<Seq<char>> {
    ids.map_values(|s: String| s@)
}

/// A map of client ids to the installed app ids each is authorized to call.
#[derive(Debug)]
pub struct AuthorizedAppClients(pub StringMap<Vec<String>>);

impl AuthorizedAppClients {
    /// Whether the map's entries have distinct client ids.
    pub open spec fn well_formed(&self) -> bool {
        self.0.well_formed()
    }

    /// The app ids `client` is authorized for, if it has any record.
    pub open spec fn app_ids(&self, client: Seq<char>) -> Option<Seq<Seq<char>>> {
        if self.0@.dom().contains(client) {
            Some(app_ids_view(self.0@[client]@))
        } else {
            None
        }
    }

    /// Whether `client` is authorized for `app`.
    pub open spec fn authorizes(&self, client: Seq<char>, app: Seq<char>) -> bool {
        self.app_ids(client) matches Some(ids) && ids.contains(app)
    }

    /// No authorizations.
    pub fn new() -> (r: AuthorizedAppClients)
        ensures
            r.well_formed(),
            forall|c: Seq<char>| r.app_ids(c) is None,
    {
        AuthorizedAppClients(StringMap::new())
    }

    /// Add `installed_app_id` to the apps `client_uid` is authorized for.
    pub fn authorize(&mut self, client_uid: ClientId, installed_app_id: String)
        requires
            old(self).well_formed(),
        ensures
            final(self).well_formed(),
            final(self).app_ids(client_uid.0@) == Some(match old(self).app_ids(client_uid.0@) {
                Some(ids) => ids,
                None => Seq::<Seq<char>>::empty(),
            }.push(installed_app_id@)),
            forall|c: Seq<char>| c != client_uid.0@ ==> final(self).app_ids(c) == old(self).app_ids(c),
    {
        let ghost prior = old(self).app_ids(client_uid.0@);
        let mut app_ids: Vec<String> = match self.0.get(client_uid.0.as_str()) {
            Some(ids) => clone_strings(ids),
            None => Vec::new(),
        };
        let ghost before = app_ids@;
        app_ids.push(installed_app_id);
        proof {
            assert(app_ids_view(app_ids@) =~= app_ids_view(before).push(installed_app_id@));
            if prior is None {
                assert(app_ids_view(before) =~= Seq::<Seq<char>>::empty());
            }
        }
        self.0.insert(client_uid.0, app_ids);
    }

    /// Whether `client_uid` is authorized to call `installed_app_id`.
    pub fn is_authorized(&self, client_uid: &ClientId, installed_app_id: &str) -> (r: bool)
        requires
            self.well_formed(),
        ensures
            r == self.authorizes(client_uid.0@, installed_app_id@),
    {
        match self.0.get(client_uid.0.as_str()) {
            Some(ids) => contains_string(ids, installed_app_id),
            None => false,
        }
    }
}

/// A copy of a list of strings.
pub fn clone_strings(v: &Vec<String>) -> (r: Vec<String>)
    ensures
        r@ == v@,
{
    let mut r: Vec<String> = Vec::new();
    let mut i: usize = 0;
    while i < v.len()
        invariant
            0 <= i <= v@.len(),
            r@ == v@.subrange(0, i as int),
        decreases v@.len() - i,
    {
        r.push(v[i].clone());
        i = i + 1;
    }
    assert(r@ =~= v@);
    r
}

/// Whether `v` holds a string with the characters of `s`.
pub fn contains_string(v: &Vec<String>, s: &str) -> (r: bool)
    ensures
        r == app_ids_view(v@).contains(s@),
{
    let mut i: usize = 0;
    while i < v.len()
        invariant
            0 <= i <= v@.len(),
            forall|j: int| 0 <= j < i ==> #[trigger] v@[j]@ != s@,
        decreases v@.len() - i,
    {
        if crate::text::str_equal(v[i].as_str(), s) {
            proof {
                assert(app_ids_view(v@)[i as int] == s@);
            }
            return true;
        }
        i = i + 1;
    }
    proof {
        if app_ids_view(v@).contains(s@) {
            let j = choose|j: int| 0 <= j < app_ids_view(v@).len() && app_ids_view(v@)[j] == s@;
            assert(v@[j]@ == s@);
        }
    }
    false
}

/// The authorizations and the file they are persisted to.
#[derive(Debug)]
pub struct AuthorizedAppClientsManager {
    pub authorized_app_clients: AuthorizedAppClients,
    pub persisted_path: String,
}

impl AuthorizedAppClientsManager {
    /// Whether the held record is well formed.
    pub open spec fn well_formed(&self) -> bool {
        self.authorized_app_clients.well_formed()
    }

    /// A manager for the data root `data_root_path`, starting from what the
    /// persisted file holds (`None` when there is no file).
    pub fn new(data_root_path: &str, persisted: Option<AuthorizedAppClients>) -> (r: AuthorizedAppClientsManager)
        requires
            persisted matches Some(p) ==> p.well_formed(),
        ensures
            r.well_formed(),
            r.persisted_path@ == path_join(data_root_path@, PERSISTED_FILE_NAME@),
            match persisted {
                Some(p) => r.authorized_app_clients == p,
                None => forall|c: Seq<char>| r.authorized_app_clients.app_ids(c) is None,
            },
    {
        let persisted_path = join_path(data_root_path, PERSISTED_FILE_NAME);
        let data = match persisted {
            Some(p) => p,
            None => AuthorizedAppClients::new(),
        };
        AuthorizedAppClientsManager { authorized_app_clients: data, persisted_path }
    }

    /// The file the authorizations are persisted to.
    pub fn get_file_path(&self) -> (r: String)
        ensures
            r@ == self.persisted_path@,
    {
        self.persisted_path.clone()
    }

    /// Authorize `client_uid` for `installed_app_id` in memory; the host then
    /// saves the record to [`Self::get_file_path`].
    pub fn authorize(&mut self, client_uid: ClientId, installed_app_id: String)
        requires
            old(self).well_formed(),
        ensures
            final(self).well_formed(),
            final(self).persisted_path == old(self).persisted_path,
            final(self).authorized_app_clients.authorizes(client_uid.0@, installed_app_id@),
            final(self).authorized_app_clients.app_ids(client_uid.0@) == Some(match old(self).authorized_app_clients.app_ids(client_uid.0@) {
                Some(ids) => ids,
                None => Seq::<Seq<char>>::empty(),
            }.push(installed_app_id@)),
            forall|c: Seq<char>| c != client_uid.0@ ==> final(self).authorized_app_clients.app_ids(c) == old(self).authorized_app_clients.app_ids(c),
    {
        let ghost app = installed_app_id@;
        self.authorized_app_clients.authorize(client_uid, installed_app_id);
        proof {
            let ids = self.authorized_app_clients.app_ids(client_uid.0@)->0;
            assert(ids[ids.len() - 1] == app);
        }
    }

    /// Replace the in-memory record with what the persisted file holds, if the
    /// host found one.
    pub fn load_from_persisted(&mut self, persisted: Option<AuthorizedAppClients>)
        requires
            old(self).well_formed(),
            persisted matches Some(p) ==> p.well_formed(),
        ensures
            final(self).well_formed(),
            final(self).persisted_path == old(self).persisted_path,
            match persisted {
                Some(p) => final(self).authorized_app_clients == p,
                None => final(self).authorized_app_clients == old(self).authorized_app_clients,
            },
    {
        match persisted {
            Some(p) => { self.authorized_app_clients = p; },
            None => {},
        }
    }

    /// Whether `client_uid` may call `installed_app_id`, after loading what the
    /// persisted file holds.
    pub fn is_authorized(&mut self, persisted: Option<AuthorizedAppClients>, client_uid: &ClientId, installed_app_id: &str) -> (r: bool)
        requires
            old(self).well_formed(),
            persisted matches Some(p) ==> p.well_formed(),
        ensures
            final(self).well_formed(),
            final(self).persisted_path == old(self).persisted_path,
            match persisted {
                Some(p) => final(self).authorized_app_clients == p,
                None => final(self).authorized_app_clients == old(self).authorized_app_clients,
            },
            r == final(self).authorized_app_clients.authorizes(client_uid.0@, installed_app_id@),
    {
        self.load_from_persisted(persisted);
        self.authorized_app_clients.is_authorized(client_uid, installed_app_id)
    }
}

/// Authorizing a client for an app makes it authorized for that app, and
/// leaves every other client's authorizations as they were.
pub proof fn authorize_grants_only_that_client(before: AuthorizedAppClients, after: AuthorizedAppClients, client: Seq<char>, app: Seq<char>)
    requires
        after.app_ids(client) == Some(match before.app_ids(client) {
            Some(ids) => ids,
            None => Seq::<Seq<char>>::empty(),
        }.push(app)),
        forall|c: Seq<char>| c != client ==> after.app_ids(c) == before.app_ids(c),
    ensures
        after.authorizes(client, app),
        forall|c: Seq<char>, a: Seq<char>| c != client ==> (after.authorizes(c, a) <==> before.authorizes(c, a)),
        forall|a: Seq<char>| before.authorizes(client, a) ==> after.authorizes(client, a),
{
    let ids = after.app_ids(client)->0;
    assert(ids[ids.len() - 1] == app);
    assert forall|a: Seq<char>| before.authorizes(client, a) implies after.authorizes(client, a) by {
        let old_ids = before.app_ids(client)->0;
        let j = choose|j: int| 0 <= j < old_ids.len() && old_ids[j] == a;
        assert(ids[j] == a);
    }
}

} // verus!
