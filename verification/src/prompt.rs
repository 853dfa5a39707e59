//! What a person is asked before anything is done in their name: a personal access
//! token, and which of their accounts to use.

use crate::debug::checksum;
use crate::text;
use crate::text::decimal_text;
use crate::text::read_number;
use crate::text::trim_text;
use crate::text::NumberError;
use vstd::arithmetic::power::pow;
use vstd::prelude::*;

verus! {

/// What a token is asked for.
#[derive(Clone, Copy, Debug, PartialEq, Eq, Structural)]
pub enum Intent {
    Login,
    Debug,
}

/// What is said before a token is asked for.
pub open spec fn login_reason(intent: Intent) -> Seq<char> {
    match intent {
        Intent::Login => "To login, enter your personal access token.\n"@,
        Intent::Debug => {
            "Before starting your debug session, enter your personal access token.\n"@
        },
    }
}

/// The question for a token.
pub fn prompt_login(intent: Intent) -> (r: String)
    ensures
        r@ == login_reason(intent)
            + "\nYou can generate a personal access token at https://papaya-repeal-curvature.ngrok-free.dev/personal_access_tokens\n\nCopy your personal access token, paste it here, and hit ENTER:\nToken: "@,
{
    let mut r = match intent {
        Intent::Login => "To login, enter your personal access token.\n".to_owned(),
        Intent::Debug => {
            "Before starting your debug session, enter your personal access token.\n".to_owned()
        },
    };
    r.append(
        "\nYou can generate a personal access token at https://papaya-repeal-curvature.ngrok-free.dev/personal_access_tokens\n\nCopy your personal access token, paste it here, and hit ENTER:\nToken: ",
    );
    r
}

/// Where the accounts are asked for.
pub fn accounts_url() -> (r: &'static str)
    ensures
        r@ == "https://papaya-repeal-curvature.ngrok-free.dev/cli_accounts"@,
{
    "https://papaya-repeal-curvature.ngrok-free.dev/cli_accounts"
}

/// The headers with which the accounts are asked for: the token, and the form of the
/// answer.
pub fn accounts_headers<'a>(secret: &'a str) -> (r: ((&'static str, &'a str), (
    &'static str,
    &'static str,
)))
    ensures
        r.0.0@ == "x-muzanci-personal-access-token"@,
        r.0.1@ == secret@,
        r.1.0@ == "accept"@,
        r.1.1@ == "application/json"@,
{
    (("x-muzanci-personal-access-token", secret), ("accept", "application/json"))
}

/// An account: the number that its UUID is, and its name.
pub struct Account {
    pub account_id: u128,
    pub name: String,
}

/// The accounts of a person.
pub struct AccountsResponse {
    pub accounts: Vec<Account>,
}

/// Why no account was selected.
#[derive(Debug)]
pub enum SelectionError {
    /// The accounts could not be had; the server said this.
    FetchFailed(String),
    /// There are none.
    NoAccounts,
    /// What was typed is not a number.
    NotANumber(NumberError),
    /// No account has that number.
    InvalidChoice(usize),
}

impl SelectionError {
    /// What went wrong, in words.
    pub open spec fn text(self) -> Seq<char> {
        match self {
            SelectionError::FetchFailed(body) => "failed to fetch accounts: "@ + body@,
            SelectionError::NoAccounts => "no accounts found"@,
            SelectionError::NotANumber(error) => text::number_error_text(error),
            SelectionError::InvalidChoice(choice) => "invalid choice: "@ + text::decimal(
                choice as nat,
            ),
        }
    }

    /// What went wrong, in words.
    pub fn message(&self) -> (r: String)
        ensures
            r@ == self.text(),
    {
        match self {
            SelectionError::FetchFailed(body) => {
                let mut r = "failed to fetch accounts: ".to_owned();
                r.append(body.as_str());
                r
            },
            SelectionError::NoAccounts => "no accounts found".to_owned(),
            SelectionError::NotANumber(error) => error.message(),
            SelectionError::InvalidChoice(choice) => {
                let mut r = "invalid choice: ".to_owned();
                r.append(decimal_text(*choice).as_str());
                r
            },
        }
    }
}

/// Where a hexadecimal digit of a UUID stands, counted without the hyphens.
pub open spec fn digit_place(i: int) -> int {
    if i < 8 {
        i
    } else if i < 13 {
        i - 1
    } else if i < 18 {
        i - 2
    } else if i < 23 {
        i - 3
    } else {
        i - 4
    }
}

/// The text of a UUID: the 32 hexadecimal digits of its number, the highest first,
/// with hyphens behind the 8th, the 12th, the 16th and the 20th.
pub open spec fn uuid_text(id: u128) -> Seq<char> {
    Seq::new(
        36,
        |i: int|
            if i == 8 || i == 13 || i == 18 || i == 23 {
                '-'
            } else {
                checksum::hex_digit(
                    ((id as int / pow(16, (31 - digit_place(i)) as nat)) % 16) as nat,
                )
            },
    )
}

/// Calls `uuid::Uuid::from_u128` and writes out what it returns: 32 lower case
/// hexadecimal digits in groups of 8, 4, 4, 4 and 12, with hyphens between them.
#[verifier::external_body]
fn uuid_to_text(id: u128) -> (r: String)
    ensures
        r@ == uuid_text(id),
{
    uuid::Uuid::from_u128(id).to_string()
}

/// What the menu shows of an account, by its number.
pub open spec fn menu_entry(account: Account, number: nat) -> Seq<char> {
    text::decimal(number) + ": "@ + account.name@ + " ("@ + uuid_text(account.account_id) + ")\n"@
}

/// What the menu shows of the first `k` accounts.
pub open spec fn menu_entries(accounts: Seq<Account>, k: int) -> Seq<char>
    decreases k,
{
    if k <= 0 {
        Seq::empty()
    } else {
        menu_entries(accounts, k - 1) + menu_entry(accounts[k - 1], k as nat)
    }
}

/// The question for an account.
pub open spec fn menu(accounts: Seq<Account>) -> Seq<char> {
    "Your MuzanCI profile is associated with multiple MuzanCI accounts.\nWhich MuzanCI account would you like to use?:\n"@
        + menu_entries(accounts, accounts.len() as int) + "Enter your choice: "@
}

/// What is done about a person's accounts.
pub enum Selection {
    /// There is only this one.
    Only(u128),
    /// Ask this, and read a line.
    Ask(String),
}

/// What the menu shows of an account.
fn menu_line(account: &Account, number: usize) -> (r: String)
    ensures
        r@ == menu_entry(*account, number as nat),
{
    let mut r = decimal_text(number);
    r.append(": ");
    r.append(account.name.as_str());
    r.append(" (");
    r.append(uuid_to_text(account.account_id).as_str());
    r.append(")\n");
    r
}

/// Takes the accounts that the server has told. Without any, none can be selected;
/// one is selected unasked.
pub fn prompt_account_selection(accounts: &Vec<Account>) -> (r: Result<Selection, SelectionError>)
    ensures
        accounts@.len() == 0 ==> r == Err::<Selection, SelectionError>(SelectionError::NoAccounts),
        accounts@.len() == 1 ==> r == Ok::<Selection, SelectionError>(
            Selection::Only(accounts@[0].account_id),
        ),
        accounts@.len() > 1 ==> (r matches Ok(Selection::Ask(question)) && question@ == menu(
            accounts@,
        )),
{
    if accounts.len() == 0 {
        return Err(SelectionError::NoAccounts);
    }
    if accounts.len() == 1 {
        return Ok(Selection::Only(accounts[0].account_id));
    }
    let mut out =
        "Your MuzanCI profile is associated with multiple MuzanCI accounts.\nWhich MuzanCI account would you like to use?:\n".to_owned();
    let ghost head = out@;
    assert(out@ == head + menu_entries(accounts@, 0));
    let mut i: usize = 0;
    while i < accounts.len()
        invariant
            i <= accounts@.len(),
            out@ == head + menu_entries(accounts@, i as int),
        decreases accounts@.len() - i,
    {
        let line = menu_line(&accounts[i], i + 1);
        out.append(line.as_str());
        i = i + 1;
        assert(out@ == head + menu_entries(accounts@, i as int));
    }
    out.append("Enter your choice: ");
    Ok(Selection::Ask(out))
}

/// Whether the server has told the accounts, by the status of its answer.
pub fn accounts_fetched(status: u16) -> (r: bool)
    ensures
        r == (200 <= status < 300),
{
    200 <= status && status < 300
}

/// The account that a line selects: the one with that number in the menu.
pub open spec fn selected(accounts: Seq<Account>, line: Seq<char>) -> Result<u128, SelectionError> {
    match text::number_of(text::trim(line)) {
        Err(error) => Err(SelectionError::NotANumber(error)),
        Ok(choice) => if 1 <= choice <= accounts.len() {
            Ok(accounts[choice - 1].account_id)
        } else {
            Err(SelectionError::InvalidChoice(choice))
        },
    }
}

/// The account that a line selects.
pub fn select_account(accounts: &Vec<Account>, line: &str) -> (r: Result<u128, SelectionError>)
    ensures
        r == selected(accounts@, line@),
{
    match read_number(trim_text(line).as_str()) {
        Err(error) => Err(SelectionError::NotANumber(error)),
        Ok(choice) => {
            if choice < 1 || choice > accounts.len() {
                Err(SelectionError::InvalidChoice(choice))
            } else {
                Ok(accounts[choice - 1].account_id)
            }
        },
    }
}

/// The number that the menu shows beside an account selects that account, and an
/// account that is selected is one of the person's.
pub proof fn shown_number_selects_account(accounts: Seq<Account>, i: int, line: Seq<char>)
    ensures
        0 <= i < accounts.len() && i < usize::MAX ==> selected(accounts, text::decimal((i + 1) as nat) + "\n"@) == Ok::<
            u128,
            SelectionError,
        >(accounts[i].account_id),
        selected(accounts, line) matches Ok(id) ==> exists|k: int|
            0 <= k < accounts.len() && (#[trigger] accounts[k]).account_id == id,
{
    if 0 <= i < accounts.len() && i < usize::MAX {
        let n = (i + 1) as usize;
        let d = text::decimal(n as nat);
        reveal_strlit("\n");
        text::decimal_is_a_word(n as nat);
        text::number_read_back(n);
        text::trim_drops_end(d, "\n"@);
    }
}

/// What the selection of an account is told.
pub enum SelectionEvent {
    /// The server has answered with this status.
    Answered { status: u16 },
    /// The text of the server's answer.
    Body(String),
    /// The accounts in the server's answer.
    Accounts(AccountsResponse),
    /// A line was typed.
    Line(String),
}

/// What the selection of an account waits for.
#[derive(Clone, Copy, Debug, PartialEq, Eq, Structural)]
pub enum SelectionPhase {
    Fetch,
    ReadBody,
    ReadAccounts,
    Choose,
    Over,
}

/// What the selection of an account wants done.
pub enum SelectionTask {
    /// Read the text of the server's answer.
    ReadBody,
    /// Read the accounts in the server's answer.
    ReadAccounts,
    /// Ask this, and read a line.
    Ask(String),
    /// Go on with this account.
    Selected(u128),
    /// End with an error.
    Fail(SelectionError),
}

/// The selection of an account: what it waits for, and the accounts that the server
/// has told.
pub struct AccountSelection {
    pub phase: SelectionPhase,
    pub accounts: Vec<Account>,
}

/// What the accounts that the server has told lead to.
pub open spec fn offers(accounts: Seq<Account>, after: SelectionPhase, task: SelectionTask) -> bool {
    if accounts.len() == 0 {
        after == SelectionPhase::Over && task == SelectionTask::Fail(SelectionError::NoAccounts)
    } else if accounts.len() == 1 {
        after == SelectionPhase::Over && task == SelectionTask::Selected(accounts[0].account_id)
    } else {
        after == SelectionPhase::Choose && (task matches SelectionTask::Ask(question) && question@
            == menu(accounts))
    }
}

impl AccountSelection {
    /// Whether the selection can act on an event.
    pub open spec fn takes(self, event: SelectionEvent) -> bool {
        match event {
            SelectionEvent::Answered { .. } => self.phase == SelectionPhase::Fetch,
            SelectionEvent::Body(_) => self.phase == SelectionPhase::ReadBody,
            SelectionEvent::Accounts(_) => self.phase == SelectionPhase::ReadAccounts,
            SelectionEvent::Line(_) => self.phase == SelectionPhase::Choose,
        }
    }

    /// Whether an event leads to the state `after`, with `task` to be done.
    pub open spec fn leads_to(
        self,
        event: SelectionEvent,
        after: AccountSelection,
        task: SelectionTask,
    ) -> bool {
        match event {
            SelectionEvent::Answered { status } => {
                &&& after.accounts@ == self.accounts@
                &&& if 200 <= status < 300 {
                    after.phase == SelectionPhase::ReadAccounts && task
                        == SelectionTask::ReadAccounts
                } else {
                    after.phase == SelectionPhase::ReadBody && task == SelectionTask::ReadBody
                }
            },
            SelectionEvent::Body(body) => {
                &&& after.accounts@ == self.accounts@
                &&& after.phase == SelectionPhase::Over
                &&& task == SelectionTask::Fail(SelectionError::FetchFailed(body))
            },
            SelectionEvent::Accounts(response) => {
                &&& after.accounts@ == response.accounts@
                &&& offers(response.accounts@, after.phase, task)
            },
            SelectionEvent::Line(line) => {
                &&& after.accounts@ == self.accounts@
                &&& after.phase == SelectionPhase::Over
                &&& task == match selected(self.accounts@, line@) {
                    Ok(account_id) => SelectionTask::Selected(account_id),
                    Err(error) => SelectionTask::Fail(error),
                }
            },
        }
    }

    /// A selection that waits for the server's answer.
    pub fn new() -> (r: AccountSelection)
        ensures
            r.phase == SelectionPhase::Fetch,
            r.accounts@ == Seq::<Account>::empty(),
    {
        AccountSelection { phase: SelectionPhase::Fetch, accounts: Vec::new() }
    }

    /// Whether the selection can act on an event.
    pub fn can_take(&self, event: &SelectionEvent) -> (r: bool)
        ensures
            r == self.takes(*event),
    {
        match event {
            SelectionEvent::Answered { .. } => self.phase == SelectionPhase::Fetch,
            SelectionEvent::Body(_) => self.phase == SelectionPhase::ReadBody,
            SelectionEvent::Accounts(_) => self.phase == SelectionPhase::ReadAccounts,
            SelectionEvent::Line(_) => self.phase == SelectionPhase::Choose,
        }
    }

    /// Acts on an event.
    pub fn advance(&mut self, event: SelectionEvent) -> (r: SelectionTask)
        requires
            old(self).takes(event),
        ensures
            old(self).leads_to(event, *final(self), r),
    {
        match event {
            SelectionEvent::Answered { status } => {
                if accounts_fetched(status) {
                    self.phase = SelectionPhase::ReadAccounts;
                    SelectionTask::ReadAccounts
                } else {
                    self.phase = SelectionPhase::ReadBody;
                    SelectionTask::ReadBody
                }
            },
            SelectionEvent::Body(body) => {
                self.phase = SelectionPhase::Over;
                SelectionTask::Fail(SelectionError::FetchFailed(body))
            },
            SelectionEvent::Accounts(response) => {
                let AccountsResponse { accounts } = response;
                self.accounts = accounts;
                match prompt_account_selection(&self.accounts) {
                    Ok(Selection::Only(account_id)) => {
                        self.phase = SelectionPhase::Over;
                        SelectionTask::Selected(account_id)
                    },
                    Ok(Selection::Ask(question)) => {
                        self.phase = SelectionPhase::Choose;
                        SelectionTask::Ask(question)
                    },
                    Err(error) => {
                        self.phase = SelectionPhase::Over;
                        SelectionTask::Fail(error)
                    },
                }
            },
            SelectionEvent::Line(line) => {
                self.phase = SelectionPhase::Over;
                match select_account(&self.accounts, line.as_str()) {
                    Ok(account_id) => SelectionTask::Selected(account_id),
                    Err(error) => SelectionTask::Fail(error),
                }
            },
        }
    }
}

/// An account that is selected is one that the server has told, in an answer that
/// says success. No account is selected after any other answer.
pub proof fn selected_account_was_told(
    start: AccountSelection,
    status: u16,
    second: SelectionEvent,
    third: SelectionEvent,
    states: (AccountSelection, AccountSelection, AccountSelection),
    tasks: (SelectionTask, SelectionTask, SelectionTask),
)
    requires
        start.phase == SelectionPhase::Fetch,
        start.leads_to(SelectionEvent::Answered { status }, states.0, tasks.0),
        states.0.takes(second),
        states.0.leads_to(second, states.1, tasks.1),
    ensures
        !(tasks.0 is Selected),
        tasks.1 matches SelectionTask::Selected(id) ==> 200 <= status < 300 && (second matches
            SelectionEvent::Accounts(response) && exists|k: int|
            0 <= k < response.accounts@.len() && (#[trigger] response.accounts@[k]).account_id
                == id),
        states.1.takes(third) && states.1.leads_to(third, states.2, tasks.2) ==> {
            &&& tasks.2 matches SelectionTask::Selected(id) ==> 200 <= status < 300 && (
            second matches SelectionEvent::Accounts(response) && exists|k: int|
                0 <= k < response.accounts@.len() && (#[trigger] response.accounts@[k]).account_id
                    == id)
            &&& states.2.phase == SelectionPhase::Over
        },
{
    if let SelectionEvent::Accounts(response) = second {
        if tasks.1 is Selected {
            assert(response.accounts@[0].account_id == tasks.1->Selected_0);
        }
        if let SelectionEvent::Line(line) = third {
            shown_number_selects_account(states.1.accounts@, 0, line@);
        }
    }
}

/// What is said before a token is asked for.
pub proof fn reasons_to_log_in()
    ensures
        login_reason(Intent::Login) == "To login, enter your personal access token.\n"@,
        login_reason(Intent::Debug)
            == "Before starting your debug session, enter your personal access token.\n"@,
{
}

/// The menu lists every account, in order, with its number from one on, its name and its
/// UUID, between the question and the prompt.
pub proof fn menu_lists_every_account(accounts: Seq<Account>)
    ensures
        menu(accounts)
            == "Your MuzanCI profile is associated with multiple MuzanCI accounts.\nWhich MuzanCI account would you like to use?:\n"@
            + Seq::new(
            accounts.len(),
            |i: int|
                text::decimal((i + 1) as nat) + ": "@ + accounts[i].name@ + " ("@ + uuid_text(
                    accounts[i].account_id,
                ) + ")\n"@,
        ).flatten() + "Enter your choice: "@,
{
    let lines = Seq::new(
        accounts.len(),
        |i: int|
            text::decimal((i + 1) as nat) + ": "@ + accounts[i].name@ + " ("@ + uuid_text(
                accounts[i].account_id,
            ) + ")\n"@,
    );
    menu_is_flat(accounts, lines, accounts.len() as int);
    assert(lines.take(lines.len() as int) == lines);
}

proof fn menu_is_flat(accounts: Seq<Account>, lines: Seq<Seq<char>>, k: int)
    requires
        0 <= k <= accounts.len() == lines.len(),
        forall|i: int|
            0 <= i < accounts.len() ==> #[trigger] lines[i] == menu_entry(
                accounts[i],
                (i + 1) as nat,
            ),
    ensures
        menu_entries(accounts, k) == lines.take(k).flatten(),
    decreases k,
{
    if k > 0 {
        menu_is_flat(accounts, lines, k - 1);
        text::flatten_one_more(lines, k - 1);
    }
}

/// A line selects an account if and only if, without the white space around it, it is the
/// number of one, counted from one. What is no number is refused for what is wrong with it,
/// and a number that no account has is refused as a choice.
pub proof fn what_a_line_selects(accounts: Seq<Account>, line: Seq<char>, n: usize)
    ensures
        text::number_of(text::trim(line)) == Ok::<usize, NumberError>(n) ==> selected(
            accounts,
            line,
        ) == (if n == 0 || n > accounts.len() {
            Err::<u128, SelectionError>(SelectionError::InvalidChoice(n))
        } else {
            Ok(accounts[n - 1].account_id)
        }),
        text::number_of(text::trim(line)) matches Err(error) ==> selected(accounts, line) == Err::<
            u128,
            SelectionError,
        >(SelectionError::NotANumber(error)),
{
}

/// The course of a selection: an answer that says success has its accounts read, and any
/// other its text, which is then the reason for which no account was had. No account is an
/// error, one is selected unasked, and of several a person is asked; the line that they type
/// selects one or is refused. What ends the selection ends it for good.
pub proof fn course_of_a_selection(
    s: AccountSelection,
    event: SelectionEvent,
    after: AccountSelection,
    task: SelectionTask,
    next: SelectionEvent,
)
    requires
        s.takes(event),
        s.leads_to(event, after, task),
    ensures
        match event {
            SelectionEvent::Answered { status } => {
                &&& 200 <= status <= 299 ==> task is ReadAccounts && (next is Accounts
                    ==> after.takes(next))
                &&& status < 200 || status > 299 ==> task is ReadBody && (next is Body
                    ==> after.takes(next))
            },
            SelectionEvent::Body(body) => task == SelectionTask::Fail(
                SelectionError::FetchFailed(body),
            ) && !after.takes(next),
            SelectionEvent::Accounts(response) => {
                let told = response.accounts@;
                &&& after.accounts@ == told
                &&& told.len() == 0 ==> task == SelectionTask::Fail(SelectionError::NoAccounts)
                    && !after.takes(next)
                &&& told.len() == 1 ==> task == SelectionTask::Selected(told[0].account_id)
                    && !after.takes(next)
                &&& told.len() > 1 ==> (task matches SelectionTask::Ask(question) && question@
                    == menu(told)) && (next is Line ==> after.takes(next))
            },
            SelectionEvent::Line(line) => {
                &&& selected(s.accounts@, line@) matches Ok(id) ==> task
                    == SelectionTask::Selected(id)
                &&& selected(s.accounts@, line@) matches Err(error) ==> task
                    == SelectionTask::Fail(error)
                &&& !after.takes(next)
            },
        },
        s.takes(next) ==> (event is Answered <==> next is Answered) && (event is Body <==> next
            is Body) && (event is Accounts <==> next is Accounts) && (event is Line <==> next
            is Line),
{
}

/// Why no account was selected, in words.
pub proof fn selection_errors_in_words(body: String, error: NumberError, choice: usize)
    ensures
        SelectionError::FetchFailed(body).text() == "failed to fetch accounts: "@ + body@,
        SelectionError::NoAccounts.text() == "no accounts found"@,
        SelectionError::NotANumber(error).text() == text::number_error_text(error),
        SelectionError::InvalidChoice(choice).text() == "invalid choice: "@ + text::decimal(
            choice as nat,
        ),
{
}

/// What a selection acts on: at each stage what it waits for, whatever that says.
pub proof fn selection_acts_on_what_it_waits_for(
    s: AccountSelection,
    status: u16,
    body: String,
    response: AccountsResponse,
    line: String,
)
    ensures
        s.takes(SelectionEvent::Answered { status }) <==> s.phase == SelectionPhase::Fetch,
        s.takes(SelectionEvent::Body(body)) <==> s.phase == SelectionPhase::ReadBody,
        s.takes(SelectionEvent::Accounts(response)) <==> s.phase == SelectionPhase::ReadAccounts,
        s.takes(SelectionEvent::Line(line)) <==> s.phase == SelectionPhase::Choose,
{
}

} // verus!
