//! Account records and the directory that answers for them.

use crate::system::{
    system_group_by_gid, system_group_by_name, system_user_by_name, system_user_by_uid,
};
use nix::errno::Errno;
use vstd::prelude::*;

verus! {

/// Which of the two account tables a question is about.
#[derive(Clone, Copy, Debug, PartialEq, Eq, Structural)]
pub enum AccountKind {
    User,
    Group,
}

/// One entry of the account directory. Only users have a home.
#[derive(Debug, PartialEq, Eq)]
pub struct AccountRecord {
    pub name: String,
    pub id: u32,
    pub home: Option<String>,
}

/// What an `AccountRecord` holds, as plain values.
pub struct AccountRecordView {
    pub name: Seq<char>,
    pub id: u32,
    pub home: Option<Seq<char>>,
}

impl View for AccountRecord {
    type V = AccountRecordView;

    open spec fn view(&self) -> AccountRecordView {
        AccountRecordView { name: self.name@, id: self.id, home: self.home.deep_view() }
    }
}

impl DeepView for AccountRecord {
    type V = AccountRecordView;

    open spec fn deep_view(&self) -> AccountRecordView {
        self@
    }
}

impl Clone for AccountRecord {
    fn clone(&self) -> (copy: Self)
        ensures
            copy == *self,
    {
        AccountRecord { name: self.name.clone(), id: self.id, home: self.home.clone() }
    }
}

/// What a lookup came back with: a record, no record, or the reason why the
/// directory could not be asked.
pub type Answer = Result<Option<AccountRecord>, Errno>;

/// An `Answer` over plain values.
pub type AnswerView = Result<Option<AccountRecordView>, Errno>;

/// The plain-value form of an answer.
pub open spec fn answer_view(answer: Answer) -> AnswerView {
    match answer {
        Ok(found) => Ok(found.deep_view()),
        Err(errno) => Err(errno),
    }
}

/// The first record of `records` whose numeric id is `id`.
pub open spec fn first_with_id(records: Seq<AccountRecordView>, id: u32) -> Option<
    AccountRecordView,
>
    decreases records.len(),
{
    if records.len() == 0 {
        None
    } else if records[0].id == id {
        Some(records[0])
    } else {
        first_with_id(records.drop_first(), id)
    }
}

/// The first record of `records` whose name is `name`.
pub open spec fn first_named(records: Seq<AccountRecordView>, name: Seq<char>) -> Option<
    AccountRecordView,
>
    decreases records.len(),
{
    if records.len() == 0 {
        None
    } else if records[0].name == name {
        Some(records[0])
    } else {
        first_named(records.drop_first(), name)
    }
}

/// Where accounts are looked up: the operating system's database, or a fixed
/// listing that is searched front to back.
#[derive(Debug, PartialEq, Eq)]
pub enum Directory {
    System,
    Listed { users: Vec<AccountRecord>, groups: Vec<AccountRecord> },
}

/// A `Directory` over plain values.
pub enum DirectoryView {
    System,
    Listed { users: Seq<AccountRecordView>, groups: Seq<AccountRecordView> },
}

impl DirectoryView {
    /// The listed records of one kind; a system directory lists none.
    pub open spec fn records(self, kind: AccountKind) -> Seq<AccountRecordView> {
        match self {
            DirectoryView::System => Seq::empty(),
            DirectoryView::Listed { users, groups } => match kind {
                AccountKind::User => users,
                AccountKind::Group => groups,
            },
        }
    }

    /// Whether `answer` is one that this directory can give when asked for
    /// the account with numeric id `id`. A listing gives exactly one answer;
    /// of the system's answer nothing is known.
    pub open spec fn answers_by_id(self, kind: AccountKind, id: u32, answer: AnswerView) -> bool {
        self is Listed ==> answer == Ok::<Option<AccountRecordView>, Errno>(
            first_with_id(self.records(kind), id),
        )
    }

    /// Whether `answer` is one that this directory can give when asked for
    /// the account called `name`.
    pub open spec fn answers_by_name(
        self,
        kind: AccountKind,
        name: Seq<char>,
        answer: AnswerView,
    ) -> bool {
        self is Listed ==> answer == Ok::<Option<AccountRecordView>, Errno>(
            first_named(self.records(kind), name),
        )
    }
}

impl View for Directory {
    type V = DirectoryView;

    open spec fn view(&self) -> DirectoryView {
        match self {
            Directory::System => DirectoryView::System,
            Directory::Listed { users, groups } => DirectoryView::Listed {
                users: users.deep_view(),
                groups: groups.deep_view(),
            },
        }
    }
}

/// Searches `records` front to back for the numeric id `id`.
fn search_by_id(records: &Vec<AccountRecord>, id: u32) -> (found: Option<AccountRecord>)
    ensures
        found.deep_view() == first_with_id(records.deep_view(), id),
{
    let ghost all = records.deep_view();
    let mut i: usize = 0;
    assert(all.skip(0) =~= all);
    while i < records.len()
        invariant
            i <= records.len(),
            all == records.deep_view(),
            first_with_id(all, id) == first_with_id(all.skip(i as int), id),
        decreases records.len() - i,
    {
        if records[i].id == id {
            return Some(records[i].clone());
        }
        assert(all.skip(i as int).drop_first() =~= all.skip(i as int + 1));
        i += 1;
    }
    None
}

/// Searches `records` front to back for the name `name`.
fn search_by_name(records: &Vec<AccountRecord>, name: &String) -> (found: Option<AccountRecord>)
    ensures
        found.deep_view() == first_named(records.deep_view(), name@),
{
    let ghost all = records.deep_view();
    let mut i: usize = 0;
    assert(all.skip(0) =~= all);
    while i < records.len()
        invariant
            i <= records.len(),
            all == records.deep_view(),
            first_named(all, name@) == first_named(all.skip(i as int), name@),
        decreases records.len() - i,
    {
        if records[i].name == *name {
            return Some(records[i].clone());
        }
        assert(all.skip(i as int).drop_first() =~= all.skip(i as int + 1));
        i += 1;
    }
    None
}

impl Directory {
    /// Looks up the account of kind `kind` with numeric id `id`.
    pub fn find_by_id(&self, kind: AccountKind, id: u32) -> (answer: Answer)
        ensures
            self@.answers_by_id(kind, id, answer_view(answer)),
    {
        match self {
            Directory::System => match kind {
                AccountKind::User => system_user_by_uid(id),
                AccountKind::Group => system_group_by_gid(id),
            },
            Directory::Listed { users, groups } => match kind {
                AccountKind::User => Ok(search_by_id(users, id)),
                AccountKind::Group => Ok(search_by_id(groups, id)),
            },
        }
    }

    /// Looks up the account of kind `kind` called `name`.
    pub fn find_by_name(&self, kind: AccountKind, name: &String) -> (answer: Answer)
        ensures
            self@.answers_by_name(kind, name@, answer_view(answer)),
    {
        match self {
            Directory::System => match kind {
                AccountKind::User => system_user_by_name(name.as_str()),
                AccountKind::Group => system_group_by_name(name.as_str()),
            },
            Directory::Listed { users, groups } => match kind {
                AccountKind::User => Ok(search_by_name(users, name)),
                AccountKind::Group => Ok(search_by_name(groups, name)),
            },
        }
    }
}

} // verus!
