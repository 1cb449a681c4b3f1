//! What the account listing says.
//!
//! The listing greets the user with the kind of credentials in use and shows
//! the accounts those credentials reach as a table of two columns. Fetching
//! the accounts and printing are the caller's part.

use vstd::prelude::*;
use prettytable::{Cell, Row, Table};
use unicode_width::{UnicodeWidthChar, UnicodeWidthStr};

verus! {

/// The table of `prettytable`. Its cells are reached only through the
/// functions below.
#[verifier::external_type_specification]
#[verifier::external_body]
pub struct ExTable(prettytable::Table);

/// The credentials a user is logged in with.
#[derive(Debug)]
pub enum GlobalUser {
    GlobalKeyAuth { email: String, api_key: String },
    TokenAuth { api_token: String },
}

/// One account, as the listing shows it.
#[derive(Debug)]
pub struct Account {
    pub name: String,
    pub id: String,
}

/// What to print about the accounts: a note, if there is something to
/// remark, and the table.
#[derive(Debug)]
pub struct Listing {
    pub notice: Option<String>,
    pub table: String,
}

/// The account at index `row` cannot be put in a table: its name or its
/// identifier holds a terminal control sequence that `prettytable` fails to
/// measure.
#[derive(Clone, Copy, Debug, PartialEq, Eq, Structural)]
pub struct Unprintable {
    pub row: usize,
}

/// Where a scan for terminal control sequences stands in a line.
#[derive(Clone, Copy, Debug, PartialEq, Eq, Structural)]
pub enum Scan {
    /// Outside any control sequence.
    Normal,
    /// Just behind an escape character.
    Escape,
    /// Inside a control sequence, behind its opening bracket.
    Sequence,
}

/// The character that starts a terminal control sequence.
pub open spec fn escape() -> char {
    '\u{1b}'
}

/// A text without an escape character holds no control sequence.
pub open spec fn printable(text: Seq<char>) -> bool {
    forall|i: int| 0 <= i < text.len() ==> text[i] != escape()
}

/// The place of the first line feed in `text`; the length of `text` if it
/// holds none.
pub open spec fn first_line_feed(text: Seq<char>) -> int
    decreases text.len(),
{
    if text.len() == 0 || text[0] == '\n' {
        0
    } else {
        1 + first_line_feed(text.drop_first())
    }
}

/// `line` without the carriage return at its end, if it ends in one.
pub open spec fn without_return(line: Seq<char>) -> Seq<char> {
    if line.len() > 0 && line.last() == '\r' {
        line.drop_last()
    } else {
        line
    }
}

/// The lines of `text`. A line ends at a line feed, or at a carriage return
/// directly followed by a line feed; neither belongs to the line. What stands
/// behind the last line feed is a line of its own unless it is empty, and a
/// carriage return in it stays.
pub open spec fn lines_of(text: Seq<char>) -> Seq<Seq<char>>
    decreases text.len(),
{
    let end = first_line_feed(text);
    if text.len() == 0 {
        Seq::empty()
    } else if 0 <= end < text.len() {
        seq![without_return(text.take(end))] + lines_of(text.skip(end + 1))
    } else {
        seq![text]
    }
}

/// The columns that `unicode-width` gives the string `text`.
pub uninterp spec fn text_columns(text: Seq<char>) -> usize;

/// The columns that `unicode-width` gives the character `c` by itself;
/// `None` for a control character.
pub uninterp spec fn char_columns(c: char) -> Option<usize>;

/// Where the scan stands behind `c`, if it stood at `state` in front of it. A
/// control sequence is an escape character, an opening bracket, and what
/// follows up to the next `m`.
pub open spec fn scan_step(state: Scan, c: char) -> Scan {
    match state {
        Scan::Normal => if c == escape() {
            Scan::Escape
        } else {
            Scan::Normal
        },
        Scan::Escape => if c == '[' {
            Scan::Sequence
        } else {
            Scan::Normal
        },
        Scan::Sequence => if c == 'm' {
            Scan::Normal
        } else {
            Scan::Sequence
        },
    }
}

/// Whether `c`, met at `state`, belongs to a control sequence from its
/// opening bracket on.
pub open spec fn in_sequence(state: Scan, c: char) -> bool {
    match state {
        Scan::Normal => false,
        Scan::Escape => c == '[',
        Scan::Sequence => true,
    }
}

/// Where the scan stands at the end of `line`.
pub open spec fn scan_after(line: Seq<char>) -> Scan
    decreases line.len(),
{
    if line.len() == 0 {
        Scan::Normal
    } else {
        scan_step(scan_after(line.drop_last()), line.last())
    }
}

/// The columns that `prettytable` takes off the width of `line` for its
/// control sequences: one for each character of a control sequence, from the
/// opening bracket on, that has a width of its own.
pub open spec fn hidden_columns(line: Seq<char>) -> nat
    decreases line.len(),
{
    if line.len() == 0 {
        0
    } else {
        let before = hidden_columns(line.drop_last());
        if in_sequence(scan_after(line.drop_last()), line.last()) && (char_columns(line.last())
            matches Some(columns) && columns > 0) {
            before + 1
        } else {
            before
        }
    }
}

/// `prettytable` can measure a line if it has no more columns to take off
/// than the line has.
pub open spec fn line_fits(line: Seq<char>) -> bool {
    hidden_columns(line) <= text_columns(line)
}

/// A cell can be made of a text if every line of it can be measured.
pub open spec fn admissible(text: Seq<char>) -> bool {
    forall|i: int| 0 <= i < lines_of(text).len() ==> line_fits(#[trigger] lines_of(text)[i])
}

pub open spec fn account_admissible(account: Account) -> bool {
    admissible(account.name@) && admissible(account.id@)
}

/// The rows of cells that `table` holds, each cell by the lines it keeps.
pub uninterp spec fn table_cells(table: Table) -> Seq<Seq<Seq<Seq<char>>>>;

/// Whether `table` is as `Table::new` and `Cell::new` make it: in the default
/// format, without a title row, every cell aligned to the left, unstyled and
/// one column wide.
pub uninterp spec fn table_plain(table: Table) -> bool;

/// The text that `prettytable` draws for a plain table of these cells.
pub uninterp spec fn table_text(cells: Seq<Seq<Seq<Seq<char>>>>) -> Seq<char>;

/// The row of two cells made of `left` and `right`: a cell keeps the lines of
/// the text it is made of.
pub open spec fn pair_row(left: Seq<char>, right: Seq<char>) -> Seq<Seq<Seq<char>>> {
    seq![lines_of(left), lines_of(right)]
}

/// The cells of the listing: the heading, then one row for each account, in
/// the order given.
pub open spec fn listing_cells(accounts: Seq<Account>) -> Seq<Seq<Seq<Seq<char>>>> {
    Seq::new(
        accounts.len() + 1,
        |i: int|
            if i == 0 {
                pair_row("Account Name"@, "Account ID"@)
            } else {
                pair_row(accounts[i - 1].name@, accounts[i - 1].id@)
            },
    )
}

/// How the credentials in use are described.
pub open spec fn auth_description(user: GlobalUser) -> Seq<char> {
    match user {
        GlobalUser::GlobalKeyAuth { email, .. } => "a Global API Key, associated with the email '"@
            + email@ + "'"@,
        GlobalUser::TokenAuth { .. } => "an API Token"@,
    }
}

/// The greeting: an empty line, then `wave` and the kind of credentials, then
/// an empty line.
pub open spec fn greeting(wave: Seq<char>, user: GlobalUser) -> Seq<char> {
    "\n"@ + wave + " You are logged in with "@ + auth_description(user) + ".\n"@
}

/// A token that reaches no account most likely lacks the permission to read
/// accounts; a key that reaches none is no cause for remark.
pub open spec fn lacks_permission(user: GlobalUser, accounts: Seq<Account>) -> bool {
    user is TokenAuth && accounts.len() == 0
}

/// `str::lines` of std, each line copied into a string of its own. The
/// contract says of the lines what the documentation of `str::lines` says.
#[verifier::external_body]
fn split_lines(text: &str) -> (lines: Vec<String>)
    ensures
        lines.deep_view() == lines_of(text@),
{
    text.lines().map(String::from).collect()
}

/// `UnicodeWidthStr::width` of `unicode-width`. The width depends on the
/// characters of the text alone.
#[verifier::external_body]
fn columns_of_text(text: &str) -> (columns: usize)
    ensures
        columns == text_columns(text@),
{
    UnicodeWidthStr::width(text)
}

/// `UnicodeWidthChar::width` of `unicode-width`. The width depends on the
/// character alone.
#[verifier::external_body]
fn columns_of_char(c: char) -> (columns: Option<usize>)
    ensures
        columns == char_columns(c),
{
    UnicodeWidthChar::width(c)
}

/// `Table::new`: a plain table without rows.
#[verifier::external_body]
fn new_table() -> (table: Table)
    ensures
        table_cells(table) == Seq::<Seq<Seq<Seq<char>>>>::empty(),
        table_plain(table),
{
    Table::new()
}

/// `Table::add_row` with a row of two cells, each made by `Cell::new`: the
/// row is appended, the rows before it stay as they are, and a plain table
/// stays plain. A cell keeps the lines of its text, which it takes with
/// `str::lines`.
///
/// `Cell::new` measures each line of its text: it takes the width of the
/// line from `unicode-width` and counts off it the characters of terminal
/// control sequences. Where it finds more to count off than the width, it
/// panics. The texts admitted here are those on which it does not.
#[verifier::external_body]
fn add_pair(table: &mut Table, left: &str, right: &str)
    requires
        admissible(left@),
        admissible(right@),
    ensures
        table_cells(*final(table)) == table_cells(*old(table)).push(
            seq![lines_of(left@), lines_of(right@)],
        ),
        table_plain(*final(table)) == table_plain(*old(table)),
{
    table.add_row(Row::new(vec![Cell::new(left), Cell::new(right)]));
}

/// `Table`'s `to_string`: the drawing of the table. The drawing of a plain
/// table depends on its cells alone; that of another table also on its
/// format, its title row and the alignment and span of its cells.
#[verifier::external_body]
fn draw(table: &Table) -> (text: String)
    requires
        table_plain(*table),
    ensures
        text@ == table_text(table_cells(*table)),
{
    table.to_string()
}

fn is_printable(text: &str) -> (ok: bool)
    ensures
        ok == printable(text@),
{
    let length: usize = text.unicode_len();
    let mut i: usize = 0;
    while i < length
        invariant
            length == text@.len(),
            i <= length,
            forall|j: int| 0 <= j < i ==> text@[j] != escape(),
        decreases length - i,
    {
        if text.get_char(i) == '\u{1b}' {
            return false;
        }
        i += 1;
    }
    true
}

/// Scans `line` for control sequences and holds what is to be counted off
/// against the width of the line.
fn measures(line: &str) -> (ok: bool)
    ensures
        ok == line_fits(line@),
{
    let length: usize = line.unicode_len();
    let mut state = Scan::Normal;
    let mut hidden: usize = 0;
    let mut i: usize = 0;
    while i < length
        invariant
            length == line@.len(),
            i <= length,
            hidden <= i,
            state == scan_after(line@.take(i as int)),
            hidden == hidden_columns(line@.take(i as int)),
        decreases length - i,
    {
        let c = line.get_char(i);
        proof {
            let longer = line@.take(i + 1);
            assert(longer.drop_last() =~= line@.take(i as int));
            assert(longer.last() == c);
        }
        let counted: bool = match state {
            Scan::Normal => false,
            Scan::Escape => c == '[',
            Scan::Sequence => true,
        };
        if counted {
            match columns_of_char(c) {
                Some(columns) => {
                    if columns > 0 {
                        hidden += 1;
                    }
                },
                None => {},
            }
        }
        state =
        match state {
            Scan::Normal => if c == '\u{1b}' {
                Scan::Escape
            } else {
                Scan::Normal
            },
            Scan::Escape => if c == '[' {
                Scan::Sequence
            } else {
                Scan::Normal
            },
            Scan::Sequence => if c == 'm' {
                Scan::Normal
            } else {
                Scan::Sequence
            },
        };
        i += 1;
    }
    assert(line@.take(length as int) =~= line@);
    hidden <= columns_of_text(line)
}

/// Up to its first line feed a text holds no line feed, and there it holds
/// one.
proof fn lemma_first_line_feed(text: Seq<char>)
    ensures
        0 <= first_line_feed(text) <= text.len(),
        first_line_feed(text) < text.len() ==> text[first_line_feed(text)] == '\n',
    decreases text.len(),
{
    if text.len() > 0 && text[0] != '\n' {
        lemma_first_line_feed(text.drop_first());
    }
}

/// Every line of a text without an escape character is without one.
proof fn lemma_lines_stay_printable(text: Seq<char>)
    requires
        printable(text),
    ensures
        forall|i: int| 0 <= i < lines_of(text).len() ==> printable(#[trigger] lines_of(text)[i]),
    decreases text.len(),
{
    lemma_first_line_feed(text);
    let end = first_line_feed(text);
    if text.len() > 0 && end < text.len() {
        let rest = text.skip(end + 1);
        let line = without_return(text.take(end));
        assert(printable(rest));
        assert(printable(line));
        lemma_lines_stay_printable(rest);
        let all = seq![line] + lines_of(rest);
        assert forall|i: int| 0 <= i < all.len() implies printable(#[trigger] all[i]) by {
            if i > 0 {
                assert(all[i] == lines_of(rest)[i - 1]);
            }
        }
    }
}

/// In a line without an escape character the scan never leaves the normal
/// state, and nothing is counted off.
proof fn lemma_printable_line_hides_nothing(line: Seq<char>)
    requires
        printable(line),
    ensures
        scan_after(line) == Scan::Normal,
        hidden_columns(line) == 0,
    decreases line.len(),
{
    if line.len() > 0 {
        assert(printable(line.drop_last()));
        lemma_printable_line_hides_nothing(line.drop_last());
    }
}

/// A cell can be made of every text without an escape character.
pub proof fn lemma_printable_is_admissible(text: Seq<char>)
    requires
        printable(text),
    ensures
        admissible(text),
{
    lemma_lines_stay_printable(text);
    assert forall|i: int| 0 <= i < lines_of(text).len() implies line_fits(
        #[trigger] lines_of(text)[i],
    ) by {
        lemma_printable_line_hides_nothing(lines_of(text)[i]);
    }
}

/// Whether every line of `text` can be measured.
fn fits_in_cell(text: &str) -> (ok: bool)
    ensures
        ok == admissible(text@),
{
    let lines = split_lines(text);
    let mut i: usize = 0;
    while i < lines.len()
        invariant
            i <= lines.len(),
            lines.deep_view() == lines_of(text@),
            forall|j: int| 0 <= j < i ==> line_fits(#[trigger] lines_of(text@)[j]),
        decreases lines.len() - i,
    {
        assert(lines.deep_view()[i as int] == lines[i as int]@);
        if !measures(lines[i].as_str()) {
            return false;
        }
        i += 1;
    }
    true
}

/// Whether a cell can be made of `text`. A text without an escape character
/// needs no measuring.
pub fn is_admissible(text: &str) -> (ok: bool)
    ensures
        ok == admissible(text@),
{
    if is_printable(text) {
        proof {
            lemma_printable_is_admissible(text@);
        }
        true
    } else {
        fits_in_cell(text)
    }
}

/// The index of the first account that cannot be put in a table, if there is
/// one.
pub fn first_unprintable(accounts: &Vec<Account>) -> (found: Option<usize>)
    ensures
        match found {
            Some(row) => {
                &&& row < accounts.len()
                &&& !account_admissible(accounts[row as int])
                &&& forall|j: int| 0 <= j < row ==> account_admissible(#[trigger] accounts[j])
            },
            None => forall|j: int|
                0 <= j < accounts.len() ==> account_admissible(#[trigger] accounts[j]),
        },
{
    let mut i: usize = 0;
    while i < accounts.len()
        invariant
            i <= accounts.len(),
            forall|j: int| 0 <= j < i ==> account_admissible(#[trigger] accounts[j]),
        decreases accounts.len() - i,
    {
        let account = &accounts[i];
        if !is_admissible(account.name.as_str()) || !is_admissible(account.id.as_str()) {
            return Some(i);
        }
        i += 1;
    }
    None
}

/// Draws the table of `accounts` under its heading: one row for each account,
/// in the order given. The table is drawn for every list of accounts of which
/// `prettytable` can make cells.
pub fn account_table(accounts: &Vec<Account>) -> (drawn: Result<String, Unprintable>)
    ensures
        match drawn {
            Ok(text) => {
                &&& forall|j: int|
                    0 <= j < accounts.len() ==> account_admissible(#[trigger] accounts[j])
                &&& text@ == table_text(listing_cells(accounts@))
            },
            Err(error) => {
                &&& error.row < accounts.len()
                &&& !account_admissible(accounts[error.row as int])
                &&& forall|j: int| 0 <= j < error.row ==> account_admissible(#[trigger] accounts[j])
            },
        },
{
    match first_unprintable(accounts) {
        Some(row) => Err(Unprintable { row }),
        None => {
            proof {
                reveal_strlit("Account Name");
                reveal_strlit("Account ID");
                lemma_printable_is_admissible("Account Name"@);
                lemma_printable_is_admissible("Account ID"@);
            }
            let mut table = new_table();
            add_pair(&mut table, "Account Name", "Account ID");
            let mut i: usize = 0;
            while i < accounts.len()
                invariant
                    i <= accounts.len(),
                    forall|j: int|
                        0 <= j < accounts.len() ==> account_admissible(#[trigger] accounts[j]),
                    table_plain(table),
                    table_cells(table) == listing_cells(accounts@.take(i as int)),
                decreases accounts.len() - i,
            {
                let account = &accounts[i];
                add_pair(&mut table, account.name.as_str(), account.id.as_str());
                assert(listing_cells(accounts@.take(i + 1)) =~= listing_cells(
                    accounts@.take(i as int),
                ).push(pair_row(account.name@, account.id@)));
                i += 1;
            }
            assert(accounts@.take(i as int) =~= accounts@);
            Ok(draw(&table))
        },
    }
}

/// Describes the credentials in use.
pub fn describe_auth(user: &GlobalUser) -> (text: String)
    ensures
        text@ == auth_description(*user),
{
    match user {
        GlobalUser::GlobalKeyAuth { email, .. } => {
            let mut text = String::from_str("a Global API Key, associated with the email '");
            text.append(email.as_str());
            text.append("'");
            text
        },
        GlobalUser::TokenAuth { .. } => String::from_str("an API Token"),
    }
}

/// Writes the greeting. `wave` is the sign to open it with.
pub fn login_notice(wave: &str, user: &GlobalUser) -> (text: String)
    ensures
        text@ == greeting(wave@, *user),
{
    let auth = describe_auth(user);
    let mut text = String::from_str("\n");
    text.append(wave);
    text.append(" You are logged in with ");
    text.append(auth.as_str());
    text.append(".\n");
    assert(text@ =~= greeting(wave@, *user));
    text
}

/// Says what to print about the accounts that were fetched for `user`: the
/// table, and in front of it a note where a token reached no account.
pub fn list_accounts(user: &GlobalUser, accounts: &Vec<Account>) -> (listing: Result<
    Listing,
    Unprintable,
>)
    ensures
        match listing {
            Ok(shown) => {
                &&& forall|j: int| 0 <= j < accounts.len() ==> account_admissible(#[trigger] accounts[j])
                &&& shown.table@ == table_text(listing_cells(accounts@))
                &&& match shown.notice {
                    Some(note) => lacks_permission(*user, accounts@) && note@
                        == "Your token is missing the 'Account Settings: Read' permission.\n\nPlease generate and auth with a new token that has these perms to be able to list your accounts.\n"@,
                    None => !lacks_permission(*user, accounts@),
                }
            },
            Err(error) => {
                &&& error.row < accounts.len()
                &&& !account_admissible(accounts[error.row as int])
                &&& forall|j: int| 0 <= j < error.row ==> account_admissible(#[trigger] accounts[j])
            },
        },
{
    let table = match account_table(accounts) {
        Ok(table) => table,
        Err(error) => {
            return Err(error);
        },
    };
    let token: bool = match user {
        GlobalUser::TokenAuth { .. } => true,
        _ => false,
    };
    let notice = if token && accounts.len() == 0 {
        Some(
            String::from_str(
                "Your token is missing the 'Account Settings: Read' permission.\n\nPlease generate and auth with a new token that has these perms to be able to list your accounts.\n",
            ),
        )
    } else {
        None
    };
    Ok(Listing { notice, table })
}

} // verus!
