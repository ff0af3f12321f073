//! Why a resolution was given up.

use crate::account::AccountKind;
use crate::text::{decimal, decimal_text};
use nix::errno::Errno;
use vstd::prelude::*;

verus! {

/// Two existing accounts that the request would have to be at once.
#[derive(Debug, PartialEq, Eq)]
pub enum Conflict {
    /// The numeric id that was asked for belongs to an account with another
    /// name than the one that was asked for.
    IdOccupied { kind: AccountKind, id: u32, owner: String },
    /// The name that was asked for belongs to an account with another
    /// numeric id than the one that was asked for.
    NameTaken { kind: AccountKind, name: String, id: u32 },
}

/// A `Conflict` over plain values.
pub enum ConflictView {
    IdOccupied { kind: AccountKind, id: u32, owner: Seq<char> },
    NameTaken { kind: AccountKind, name: Seq<char>, id: u32 },
}

impl View for Conflict {
    type V = ConflictView;

    open spec fn view(&self) -> ConflictView {
        match self {
            Conflict::IdOccupied { kind, id, owner } => ConflictView::IdOccupied {
                kind: *kind,
                id: *id,
                owner: owner@,
            },
            Conflict::NameTaken { kind, name, id } => ConflictView::NameTaken {
                kind: *kind,
                name: name@,
                id: *id,
            },
        }
    }
}

/// The reasons for which a resolution ends without a result.
#[derive(Debug, PartialEq, Eq)]
pub enum ResolveError {
    /// Neither a user name nor a numeric user id was given.
    MissingIdentity,
    /// A name and a numeric id were given that belong to different accounts.
    IdentityConflict(Conflict),
    /// The account directory could not be asked.
    LookupFailure(Errno),
}

/// A `ResolveError` over plain values.
pub enum ResolveErrorView {
    MissingIdentity,
    IdentityConflict(ConflictView),
    LookupFailure(Errno),
}

impl View for ResolveError {
    type V = ResolveErrorView;

    open spec fn view(&self) -> ResolveErrorView {
        match self {
            ResolveError::MissingIdentity => ResolveErrorView::MissingIdentity,
            ResolveError::IdentityConflict(conflict) => ResolveErrorView::IdentityConflict(
                conflict@,
            ),
            ResolveError::LookupFailure(errno) => ResolveErrorView::LookupFailure(*errno),
        }
    }
}

/// "UID" for users, "GID" for groups.
pub open spec fn id_label(kind: AccountKind) -> Seq<char> {
    match kind {
        AccountKind::User => "UID"@,
        AccountKind::Group => "GID"@,
    }
}

/// "user" for users, "group" for groups.
pub open spec fn kind_word(kind: AccountKind) -> Seq<char> {
    match kind {
        AccountKind::User => "user"@,
        AccountKind::Group => "group"@,
    }
}

/// "UID" for users, "GID" for groups.
pub fn id_label_text(kind: AccountKind) -> (text: &'static str)
    ensures
        text@ == id_label(kind),
{
    match kind {
        AccountKind::User => "UID",
        AccountKind::Group => "GID",
    }
}

/// "user" for users, "group" for groups.
pub fn kind_word_text(kind: AccountKind) -> (text: &'static str)
    ensures
        text@ == kind_word(kind),
{
    match kind {
        AccountKind::User => "user",
        AccountKind::Group => "group",
    }
}

impl ConflictView {
    /// The sentence that reports this conflict.
    pub open spec fn message(self) -> Seq<char> {
        match self {
            ConflictView::IdOccupied { kind, id, owner } => id_label(kind) + " "@ + decimal(
                id as nat,
            ) + " has been occupied by "@ + kind_word(kind) + " '"@ + owner + "'"@,
            ConflictView::NameTaken { kind, name, id } => kind_word(kind) + " '"@ + name
                + "' already exists with "@ + id_label(kind) + " "@ + decimal(id as nat),
        }
    }
}

impl ResolveErrorView {
    /// The sentence that reports this error. For a failed lookup it does not
    /// tell the system's error code apart.
    pub open spec fn message(self) -> Seq<char> {
        match self {
            ResolveErrorView::MissingIdentity => "Either --user (PUSER) or --uid (PUID) must be set"@,
            ResolveErrorView::IdentityConflict(conflict) => conflict.message(),
            ResolveErrorView::LookupFailure(_) => "account lookup failed"@,
        }
    }
}

impl Conflict {
    /// Writes the sentence that reports this conflict.
    pub fn message(&self) -> (text: String)
        ensures
            text@ == self@.message(),
    {
        match self {
            Conflict::IdOccupied { kind, id, owner } => {
                let mut text = String::from_str(id_label_text(*kind));
                text.append(" ");
                text.append(decimal_text(*id).as_str());
                text.append(" has been occupied by ");
                text.append(kind_word_text(*kind));
                text.append(" '");
                text.append(owner.as_str());
                text.append("'");
                text
            },
            Conflict::NameTaken { kind, name, id } => {
                let mut text = String::from_str(kind_word_text(*kind));
                text.append(" '");
                text.append(name.as_str());
                text.append("' already exists with ");
                text.append(id_label_text(*kind));
                text.append(" ");
                text.append(decimal_text(*id).as_str());
                text
            },
        }
    }
}

impl ResolveError {
    /// Writes the sentence that reports this error.
    pub fn message(&self) -> (text: String)
        ensures
            text@ == self@.message(),
    {
        match self {
            ResolveError::MissingIdentity => String::from_str(
                "Either --user (PUSER) or --uid (PUID) must be set",
            ),
            ResolveError::IdentityConflict(conflict) => conflict.message(),
            ResolveError::LookupFailure(_) => String::from_str("account lookup failed"),
        }
    }
}

} // verus!
