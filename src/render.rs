use vstd::prelude::*;
use vstd::string::StringExecFns;

use crate::error::APIErrorMessage;
use crate::error::APIErrorResponse;
use crate::error::MatrixAPIError;

verus! {

/// An account on the homeserver, as the admin API describes it.
#[derive(Debug)]
pub struct User {
    pub admin: u8,
    pub avatar_url: Option<String>,
    pub deactivated: u8,
    pub displayname: String,
    pub is_guest: u8,
    pub name: String,
    pub user_type: Option<String>,
}

/// One page of accounts and the total count the server reports.
#[derive(Debug)]
pub struct UserList {
    pub total: u32,
    pub users: Vec<User>,
}

/// The decoded body of a reply to the account list request: the list where
/// the status was 200, the error body otherwise.
#[derive(Debug)]
pub enum UserListReply {
    Users(UserList),
    Failure(APIErrorResponse),
}

/// One table cell: its text and its style (alignment and colour, in
/// prettytable's style notation; empty for the plain style).
#[derive(Debug)]
pub struct TableCell {
    pub text: String,
    pub style: String,
}

/// A row of cells as (text, style) pairs.
pub open spec fn cells_view(row: Seq<TableCell>) -> Seq<(Seq<char>, Seq<char>)> {
    row.map_values(|c: TableCell| (c.text@, c.style@))
}

/// A table as rows of (text, style) pairs.
pub open spec fn table_view(rows: Seq<Vec<TableCell>>) -> Seq<Seq<(Seq<char>, Seq<char>)>> {
    rows.map_values(|r: Vec<TableCell>| cells_view(r@))
}

/// The glyph of a flag: a cross for 0, a check mark otherwise.
pub open spec fn flag_glyph(v: u8) -> Seq<char> {
    if v == 0 {
        "✘"@
    } else {
        "✔"@
    }
}

/// The style of the admin cell: centred, green for a plain account and red for
/// an administrator.
pub open spec fn admin_style(v: u8) -> Seq<char> {
    if v == 0 {
        "cFg"@
    } else {
        "cFr"@
    }
}

/// An optional text, or `none` where it is absent.
pub open spec fn or_none(o: Option<String>) -> Seq<char> {
    match o {
        Some(s) => s@,
        None => "none"@,
    }
}

/// The table row of an account.
pub open spec fn user_row_view(u: User) -> Seq<(Seq<char>, Seq<char>)> {
    seq![
        (u.name@, ""@),
        (u.displayname@, ""@),
        (flag_glyph(u.admin), admin_style(u.admin)),
        (flag_glyph(u.is_guest), "c"@),
        (flag_glyph(u.deactivated), "c"@),
        (or_none(u.user_type), ""@),
        (or_none(u.avatar_url), ""@),
    ]
}

/// The header row of the account table.
pub open spec fn user_titles_view() -> Seq<(Seq<char>, Seq<char>)> {
    seq![
        ("Name"@, ""@),
        ("Displayname"@, ""@),
        ("Admin"@, ""@),
        ("Guest"@, ""@),
        ("Deactivated"@, ""@),
        ("User Type"@, ""@),
        ("Avatar"@, ""@),
    ]
}

/// The value of the first entry under `key`.
pub open spec fn lookup(entries: Seq<(String, String)>, key: Seq<char>) -> Option<Seq<char>>
    decreases entries.len(),
{
    if entries.len() == 0 {
        None
    } else if entries[0].0@ == key {
        Some(entries[0].1@)
    } else {
        lookup(entries.drop_first(), key)
    }
}

/// The version table: the Python version, then the server version.
pub open spec fn version_table_view(python: Seq<char>, server: Seq<char>) -> Seq<
    Seq<(Seq<char>, Seq<char>)>,
> {
    seq![seq![("Python"@, ""@), (python, ""@)], seq![("Server"@, ""@), (server, ""@)]]
}

/// An account without user type or avatar shows `none` in both cells, and
/// every other cell shows its decoded field.
pub proof fn lemma_missing_fields_render_none(u: User)
    requires
        u.user_type is None,
        u.avatar_url is None,
    ensures
        user_row_view(u).len() == 7,
        user_row_view(u)[0].0 == u.name@,
        user_row_view(u)[1].0 == u.displayname@,
        user_row_view(u)[2].0 == flag_glyph(u.admin),
        user_row_view(u)[3].0 == flag_glyph(u.is_guest),
        user_row_view(u)[4].0 == flag_glyph(u.deactivated),
        user_row_view(u)[5].0 == "none"@,
        user_row_view(u)[6].0 == "none"@,
{
}

fn cell(text: String, style: &str) -> (r: TableCell)
    ensures
        r.text == text,
        r.style@ == style@,
{
    TableCell { text, style: String::from_str(style) }
}

fn flag_text(v: u8) -> (r: String)
    ensures
        r@ == flag_glyph(v),
{
    if v == 0 {
        String::from_str("✘")
    } else {
        String::from_str("✔")
    }
}

fn text_or_none(o: &Option<String>) -> (r: String)
    ensures
        r@ == or_none(*o),
{
    match o {
        Some(s) => s.clone(),
        None => String::from_str("none"),
    }
}

/// Whether a reply with this status carries the account list (otherwise it
/// carries an error body).
pub fn is_success_status(status: u16) -> (r: bool)
    ensures
        r == (status == 200),
{
    status == 200
}

/// The outcome of the account list request: the list on status 200, else
/// `APIRequestError` with the error body and the status.
pub fn user_list_outcome(status: u16, reply: UserListReply) -> (r: Result<UserList, MatrixAPIError>)
    requires
        (status == 200) == (reply is Users),
    ensures
        match reply {
            UserListReply::Users(l) => r == Ok::<UserList, MatrixAPIError>(l),
            UserListReply::Failure(e) => r == Err::<UserList, MatrixAPIError>(
                MatrixAPIError::APIRequestError(
                    APIErrorMessage { api_error_response: e, status_code: status },
                ),
            ),
        },
{
    match reply {
        UserListReply::Users(l) => Ok(l),
        UserListReply::Failure(e) => Err(
            MatrixAPIError::APIRequestError(APIErrorMessage::new(e, status)),
        ),
    }
}

/// The header row of the account table.
pub fn user_table_titles() -> (r: Vec<TableCell>)
    ensures
        cells_view(r@) == user_titles_view(),
{
    let mut r: Vec<TableCell> = Vec::new();
    r.push(cell(String::from_str("Name"), ""));
    r.push(cell(String::from_str("Displayname"), ""));
    r.push(cell(String::from_str("Admin"), ""));
    r.push(cell(String::from_str("Guest"), ""));
    r.push(cell(String::from_str("Deactivated"), ""));
    r.push(cell(String::from_str("User Type"), ""));
    r.push(cell(String::from_str("Avatar"), ""));
    assert(cells_view(r@) =~= user_titles_view());
    r
}

/// The table row of an account: name, display name, the admin, guest and
/// deactivated flags as glyphs, then user type and avatar (`none` where
/// absent).
pub fn user_row(u: &User) -> (r: Vec<TableCell>)
    ensures
        cells_view(r@) == user_row_view(*u),
{
    let admin_style = if u.admin == 0 {
        "cFg"
    } else {
        "cFr"
    };
    let mut r: Vec<TableCell> = Vec::new();
    r.push(cell(u.name.clone(), ""));
    r.push(cell(u.displayname.clone(), ""));
    r.push(cell(flag_text(u.admin), admin_style));
    r.push(cell(flag_text(u.is_guest), "c"));
    r.push(cell(flag_text(u.deactivated), "c"));
    r.push(cell(text_or_none(&u.user_type), ""));
    r.push(cell(text_or_none(&u.avatar_url), ""));
    assert(cells_view(r@) =~= user_row_view(*u));
    r
}

/// The rows of the account table, one per account, in the order of the list.
pub fn user_rows(list: &UserList) -> (r: Vec<Vec<TableCell>>)
    ensures
        table_view(r@) == list.users@.map_values(|u: User| user_row_view(u)),
{
    let mut r: Vec<Vec<TableCell>> = Vec::new();
    let mut i: usize = 0;
    while i < list.users.len()
        invariant
            i <= list.users@.len(),
            r@.len() == i,
            forall|k: int| 0 <= k < i ==> cells_view(#[trigger] r@[k]@) == user_row_view(list.users@[k]),
        decreases list.users@.len() - i,
    {
        r.push(user_row(&list.users[i]));
        i = i + 1;
    }
    assert(table_view(r@) =~= list.users@.map_values(|u: User| user_row_view(u)));
    r
}

/// Position of the first account named `name`.
pub fn find_user(list: &UserList, name: &String) -> (r: Option<usize>)
    ensures
        match r {
            Some(i) => i < list.users@.len() && list.users@[i as int].name@ == name@ && forall|
                k: int,
            | 0 <= k < i ==> #[trigger] list.users@[k].name@ != name@,
            None => forall|k: int|
                0 <= k < list.users@.len() ==> #[trigger] list.users@[k].name@ != name@,
        },
{
    let mut i: usize = 0;
    while i < list.users.len()
        invariant
            i <= list.users@.len(),
            forall|k: int| 0 <= k < i ==> #[trigger] list.users@[k].name@ != name@,
        decreases list.users@.len() - i,
    {
        if list.users[i].name == *name {
            return Some(i);
        }
        i = i + 1;
    }
    None
}

fn lookup_entry(entries: &Vec<(String, String)>, key: &String) -> (r: Option<String>)
    ensures
        match lookup(entries@, key@) {
            Some(v) => r matches Some(s) && s@ == v,
            None => r is None,
        },
{
    let mut i: usize = 0;
    assert(entries@.subrange(0, entries@.len() as int) =~= entries@);
    while i < entries.len()
        invariant
            i <= entries@.len(),
            lookup(entries@, key@) == lookup(entries@.subrange(i as int, entries@.len() as int), key@),
        decreases entries@.len() - i,
    {
        let ghost rest = entries@.subrange(i as int, entries@.len() as int);
        assert(rest[0] == entries@[i as int]);
        if entries[i].0 == *key {
            return Some(entries[i].1.clone());
        }
        assert(rest.drop_first() =~= entries@.subrange(i + 1, entries@.len() as int));
        i = i + 1;
    }
    None
}

/// The version table from the entries of the version reply, or `None` where
/// `python_version` or `server_version` is missing.
pub fn version_rows(entries: &Vec<(String, String)>) -> (r: Option<Vec<Vec<TableCell>>>)
    ensures
        match (lookup(entries@, "python_version"@), lookup(entries@, "server_version"@)) {
            (Some(p), Some(s)) => r matches Some(t) && table_view(t@) == version_table_view(p, s),
            _ => r is None,
        },
{
    let python = lookup_entry(entries, &String::from_str("python_version"));
    let server = lookup_entry(entries, &String::from_str("server_version"));
    match (python, server) {
        (Some(p), Some(s)) => {
            let mut first: Vec<TableCell> = Vec::new();
            first.push(cell(String::from_str("Python"), ""));
            first.push(cell(p, ""));
            let mut second: Vec<TableCell> = Vec::new();
            second.push(cell(String::from_str("Server"), ""));
            second.push(cell(s, ""));
            let mut t: Vec<Vec<TableCell>> = Vec::new();
            t.push(first);
            t.push(second);
            assert(cells_view(t@[0]@) =~= version_table_view(p@, s@)[0]);
            assert(cells_view(t@[1]@) =~= version_table_view(p@, s@)[1]);
            assert(table_view(t@) =~= version_table_view(p@, s@));
            Some(t)
        },
        _ => None,
    }
}

} // verus!
