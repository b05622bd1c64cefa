//! Users, their roles, and the allow-list of users parsed from the
//! `username:role` file format. Usernames are normalised by trimming and
//! ASCII lower-casing; within the list the latest entry for a username wins.

use vstd::prelude::*;
use vstd::string::StringExecFns;
use crate::text::{
    chars_eq_str, chars_of, lower_chars, spec_lower, spec_split, spec_trim, split_chars,
    string_from_chars, trim_chars,
};

verus! {

/// What a user may do: view the board, deploy to staging, or deploy
/// everywhere.
#[derive(Clone, Copy, Debug, PartialEq, Eq, Structural)]
pub enum UserRole {
    Viewer,
    Deployer,
    Admin,
}

impl Default for UserRole {
    /// A user with no stated role may only view.
    fn default() -> (r: UserRole)
        ensures
            r == UserRole::Viewer,
    {
        UserRole::Viewer
    }
}

/// An authenticated user.
#[derive(Clone, Debug)]
pub struct User {
    pub id: String,
    pub username: String,
    pub avatar_url: String,
    pub access_token: String,
    pub role: UserRole,
}

impl User {
    /// Whether this user may move releases to staging.
    pub fn can_deploy_to_staging(&self) -> (r: bool)
        ensures
            r == (self.role == UserRole::Deployer || self.role == UserRole::Admin),
    {
        match self.role {
            UserRole::Deployer | UserRole::Admin => true,
            _ => false,
        }
    }

    /// Whether this user may move releases to production.
    pub fn can_deploy_to_production(&self) -> (r: bool)
        ensures
            r == (self.role == UserRole::Admin),
    {
        match self.role {
            UserRole::Admin => true,
            _ => false,
        }
    }

    /// The user as handed out over the API: the access token is withheld.
    pub fn sanitized(&self) -> (r: User)
        ensures
            r.id == self.id,
            r.username == self.username,
            r.avatar_url == self.avatar_url,
            r.access_token@ == Seq::<char>::empty(),
            r.role == self.role,
    {
        User {
            id: self.id.clone(),
            username: self.username.clone(),
            avatar_url: self.avatar_url.clone(),
            access_token: String::new(),
            role: self.role,
        }
    }
}

/// The users as handed out over the API: each with its access token withheld.
pub fn sanitize_users(users: &Vec<User>) -> (r: Vec<User>)
    ensures
        r@.len() == users@.len(),
        forall|i: int|
            0 <= i < users@.len() ==> {
                let u = #[trigger] r@[i];
                u.id == users@[i].id && u.username == users@[i].username && u.avatar_url
                    == users@[i].avatar_url && u.access_token@ == Seq::<char>::empty() && u.role
                    == users@[i].role
            },
{
    let mut r: Vec<User> = Vec::new();
    let mut i: usize = 0;
    while i < users.len()
        invariant
            i <= users@.len(),
            r@.len() == i,
            forall|k: int|
                0 <= k < i ==> {
                    let u = #[trigger] r@[k];
                    u.id == users@[k].id && u.username == users@[k].username && u.avatar_url
                        == users@[k].avatar_url && u.access_token@ == Seq::<char>::empty() && u.role
                        == users@[k].role
                },
        decreases users@.len() - i,
    {
        r.push(users[i].sanitized());
        i = i + 1;
    }
    r
}

/// The role a role name denotes. Unknown names fall back to the viewer role
/// rather than rejecting the entry.
pub open spec fn spec_role_of(s: Seq<char>) -> UserRole {
    if s == "admin"@ {
        UserRole::Admin
    } else if s == "deployer"@ {
        UserRole::Deployer
    } else {
        UserRole::Viewer
    }
}

/// The entry one line of the allow-list yields: `None` for blank lines,
/// comments and lines without exactly one colon; otherwise the trimmed,
/// lower-cased username and its role.
pub open spec fn spec_line_entry(line: Seq<char>) -> Option<(Seq<char>, UserRole)> {
    let t = spec_trim(line);
    if t.len() == 0 || t[0] == '#' {
        None
    } else {
        let parts = spec_split(t, ':');
        if parts.len() != 2 {
            None
        } else {
            Some(
                (
                    spec_lower(spec_trim(parts[0])),
                    spec_role_of(spec_lower(spec_trim(parts[1]))),
                ),
            )
        }
    }
}

/// The allow-list a sequence of lines yields; a later entry for the same
/// username overrides an earlier one.
pub open spec fn spec_users_of_lines(lines: Seq<Seq<char>>) -> Map<Seq<char>, UserRole>
    decreases lines.len(),
{
    if lines.len() == 0 {
        Map::empty()
    } else {
        let m = spec_users_of_lines(lines.drop_last());
        match spec_line_entry(lines.last()) {
            Some(e) => m.insert(e.0, e.1),
            None => m,
        }
    }
}

/// The allow-list a whole file's content yields.
pub open spec fn spec_users_of(content: Seq<char>) -> Map<Seq<char>, UserRole> {
    spec_users_of_lines(spec_split(content, '\n'))
}

/// The map a list of entries denotes; a later entry for the same username
/// overrides an earlier one.
pub open spec fn spec_entries_map(es: Seq<(String, UserRole)>) -> Map<Seq<char>, UserRole>
    decreases es.len(),
{
    if es.len() == 0 {
        Map::empty()
    } else {
        spec_entries_map(es.drop_last()).insert(es.last().0@, es.last().1)
    }
}

/// Looking an entry list up from the most recent entry backwards.
pub open spec fn spec_entries_lookup(es: Seq<(String, UserRole)>, k: Seq<char>) -> Option<UserRole>
    decreases es.len(),
{
    if es.len() == 0 {
        None
    } else if es.last().0@ == k {
        Some(es.last().1)
    } else {
        spec_entries_lookup(es.drop_last(), k)
    }
}

proof fn lemma_lookup_matches_map(es: Seq<(String, UserRole)>, k: Seq<char>)
    ensures
        spec_entries_lookup(es, k) == if spec_entries_map(es).contains_key(k) {
            Some(spec_entries_map(es)[k])
        } else {
            None::<UserRole>
        },
    decreases es.len(),
{
    if es.len() > 0 {
        lemma_lookup_matches_map(es.drop_last(), k);
    }
}

/// The allowed users and their roles.
#[derive(Clone, Debug)]
pub struct AllowedUsers {
    pub entries: Vec<(String, UserRole)>,
}

/// Parses one line of the allow-list.
fn line_entry(line: &Vec<char>) -> (r: Option<(String, UserRole)>)
    ensures
        match r {
            Some(e) => spec_line_entry(line@) == Some((e.0@, e.1)),
            None => spec_line_entry(line@) is None,
        },
{
    let t = trim_chars(line);
    if t.len() == 0 || t[0] == '#' {
        return None;
    }
    let parts = split_chars(&t, ':');
    if parts.len() != 2 {
        return None;
    }
    let user_trimmed = trim_chars(&parts[0]);
    let user_chars = lower_chars(&user_trimmed);
    let username = string_from_chars(&user_chars);
    let role_trimmed = trim_chars(&parts[1]);
    let role_chars = lower_chars(&role_trimmed);
    let role = if chars_eq_str(&role_chars, "admin") {
        UserRole::Admin
    } else if chars_eq_str(&role_chars, "deployer") {
        UserRole::Deployer
    } else {
        UserRole::Viewer
    };
    Some((username, role))
}

impl AllowedUsers {
    /// The allow-list as a map from normalised username to role.
    pub open spec fn spec_map(self) -> Map<Seq<char>, UserRole> {
        spec_entries_map(self.entries@)
    }

    /// Parses an allow-list from file content, one `username:role` entry per
    /// line. Blank lines and `#` comments are skipped; so is a line without
    /// exactly one colon. Usernames and roles are trimmed and lower-cased; an
    /// unknown role name falls back to the viewer role.
    pub fn from_content(content: &str) -> (r: AllowedUsers)
        ensures
            r.spec_map() == spec_users_of(content@),
    {
        let cs = chars_of(content);
        let lines = split_chars(&cs, '\n');
        let ghost lines_spec = spec_split(content@, '\n');
        let mut entries: Vec<(String, UserRole)> = Vec::new();
        let mut i: usize = 0;
        while i < lines.len()
            invariant
                i <= lines@.len(),
                lines@.len() == lines_spec.len(),
                forall|k: int| 0 <= k < lines@.len() ==> (#[trigger] lines@[k])@ == lines_spec[k],
                spec_entries_map(entries@) == spec_users_of_lines(
                    lines_spec.subrange(0, i as int),
                ),
            decreases lines@.len() - i,
        {
            proof {
                let pre = lines_spec.subrange(0, i as int);
                let post = lines_spec.subrange(0, i + 1 as int);
                assert(post.drop_last() =~= pre);
                assert(post.last() == lines_spec[i as int]);
            }
            let ghost entries0 = entries@;
            match line_entry(&lines[i]) {
                Some(e) => {
                    entries.push(e);
                    proof {
                        assert(entries@.drop_last() =~= entries0);
                    }
                },
                None => {},
            }
            i = i + 1;
        }
        proof {
            assert(lines_spec.subrange(0, lines_spec.len() as int) =~= lines_spec);
        }
        AllowedUsers { entries }
    }

    /// The role of an allowed user, matching the username after trimming and
    /// lower-casing; `None` for a user not on the list.
    pub fn get_role(&self, username: &str) -> (r: Option<UserRole>)
        ensures
            ({
                let k = spec_lower(spec_trim(username@));
                r == if self.spec_map().contains_key(k) {
                    Some(self.spec_map()[k])
                } else {
                    None::<UserRole>
                }
            }),
    {
        let cs = chars_of(username);
        let trimmed = trim_chars(&cs);
        let key_chars = lower_chars(&trimmed);
        let key = string_from_chars(&key_chars);
        let ghost k = spec_lower(spec_trim(username@));
        proof {
            assert(self.entries@.subrange(0, self.entries@.len() as int) =~= self.entries@);
        }
        let mut i: usize = self.entries.len();
        while i > 0
            invariant
                i <= self.entries@.len(),
                key@ == k,
                k == spec_lower(spec_trim(username@)),
                spec_entries_lookup(self.entries@, k) == spec_entries_lookup(
                    self.entries@.subrange(0, i as int),
                    k,
                ),
            decreases i,
        {
            i = i - 1;
            proof {
                let pre = self.entries@.subrange(0, i as int);
                let post = self.entries@.subrange(0, i + 1 as int);
                assert(post.drop_last() =~= pre);
                assert(post.last() == self.entries@[i as int]);
            }
            if crate::text::str_eq(self.entries[i].0.as_str(), key.as_str()) {
                proof {
                    let post = self.entries@.subrange(0, i + 1 as int);
                    assert(post.last() == self.entries@[i as int]);
                    assert(spec_entries_lookup(self.entries@, k) == Some(
                        self.entries@[i as int].1,
                    ));
                    lemma_lookup_matches_map(self.entries@, k);
                }
                return Some(self.entries[i].1);
            }
        }
        proof {
            assert(self.entries@.subrange(0, 0) =~= Seq::<(String, UserRole)>::empty());
            lemma_lookup_matches_map(self.entries@, k);
        }
        None
    }

    /// Whether a user is on the allow-list, matching the username after
    /// trimming and lower-casing.
    pub fn is_allowed(&self, username: &str) -> (r: bool)
        ensures
            r == self.spec_map().contains_key(spec_lower(spec_trim(username@))),
    {
        match self.get_role(username) {
            Some(_) => true,
            None => false,
        }
    }
}

impl Default for AllowedUsers {
    /// The fallback allow-list used when no users file can be read: one user
    /// of each role, named after it.
    fn default() -> (r: AllowedUsers)
        ensures
            r.spec_map() =~= Map::<Seq<char>, UserRole>::empty().insert(
                "admin"@,
                UserRole::Admin,
            ).insert("deployer"@, UserRole::Deployer).insert("viewer"@, UserRole::Viewer),
    {
        let mut entries: Vec<(String, UserRole)> = Vec::new();
        entries.push((String::from_str("admin"), UserRole::Admin));
        entries.push((String::from_str("deployer"), UserRole::Deployer));
        entries.push((String::from_str("viewer"), UserRole::Viewer));
        proof {
            let e = entries@;
            let e2 = e.drop_last();
            let e1 = e2.drop_last();
            let e0 = e1.drop_last();
            assert(e0 =~= Seq::<(String, UserRole)>::empty());
            assert(e.last() == e[2]);
            assert(e2.last() == e[1]);
            assert(e1.last() == e[0]);
            assert(spec_entries_map(e0) =~= Map::<Seq<char>, UserRole>::empty());
            assert(spec_entries_map(e1) =~= Map::<Seq<char>, UserRole>::empty().insert(
                "admin"@,
                UserRole::Admin,
            ));
            assert(spec_entries_map(e2) =~= Map::<Seq<char>, UserRole>::empty().insert(
                "admin"@,
                UserRole::Admin,
            ).insert("deployer"@, UserRole::Deployer));
            assert(spec_entries_map(e) =~= Map::<Seq<char>, UserRole>::empty().insert(
                "admin"@,
                UserRole::Admin,
            ).insert("deployer"@, UserRole::Deployer).insert("viewer"@, UserRole::Viewer));
        }
        AllowedUsers { entries }
    }
}

} // verus!
