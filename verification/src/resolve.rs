//! Resolution of a user and of a group: what was asked for is reconciled with
//! the accounts that exist, and what is missing is filled in.

use crate::account::{answer_view, first_named, first_with_id};
use crate::account::{AccountKind, Answer, AnswerView, Directory, DirectoryView};
use crate::config::{Config, ConfigView};
use crate::error::{id_label, id_label_text};
use crate::error::{Conflict, ConflictView, ResolveError, ResolveErrorView};
use crate::line::{emit, export_line, log_line, Line, LineView};
use crate::text::{decimal, decimal_text};
use vstd::prelude::*;

verus! {

/// An identity under resolution: what is known of it so far.
#[derive(Debug, PartialEq, Eq)]
pub struct Draft {
    pub name: Option<String>,
    pub id: Option<u32>,
    pub home: Option<String>,
    /// Set once a lookup has found no account.
    pub create: bool,
}

/// A `Draft` over plain values.
pub struct DraftView {
    pub name: Option<Seq<char>>,
    pub id: Option<u32>,
    pub home: Option<Seq<char>>,
    pub create: bool,
}

impl View for Draft {
    type V = DraftView;

    open spec fn view(&self) -> DraftView {
        DraftView {
            name: self.name.deep_view(),
            id: self.id,
            home: self.home.deep_view(),
            create: self.create,
        }
    }
}

/// A resolved identity: its name is settled, and `create` says whether the
/// account has to be made.
#[derive(Debug, PartialEq, Eq)]
pub struct Identity {
    pub name: String,
    pub id: Option<u32>,
    pub home: Option<String>,
    pub create: bool,
}

/// An `Identity` over plain values.
pub struct IdentityView {
    pub name: Seq<char>,
    pub id: Option<u32>,
    pub home: Option<Seq<char>>,
    pub create: bool,
}

impl View for Identity {
    type V = IdentityView;

    open spec fn view(&self) -> IdentityView {
        IdentityView {
            name: self.name@,
            id: self.id,
            home: self.home.deep_view(),
            create: self.create,
        }
    }
}

/// The plain-value form of a result.
pub open spec fn result_view<T: View>(result: Result<T, ResolveError>) -> Result<
    T::V,
    ResolveErrorView,
> {
    match result {
        Ok(value) => Ok(value@),
        Err(error) => Err(error@),
    }
}

/// The home of a draft after a record was adopted: the record's, where it has
/// one.
pub open spec fn adopted_home(known: Option<Seq<char>>, found: Option<Seq<char>>) -> Option<
    Seq<char>,
> {
    if found is Some {
        found
    } else {
        known
    }
}

impl DraftView {
    /// The draft after the directory was asked for the draft's numeric id.
    /// A draft without a numeric id asks nothing and stays as it is.
    pub open spec fn adopt_by_id(self, kind: AccountKind, answer: AnswerView) -> Result<
        DraftView,
        ResolveErrorView,
    > {
        match self.id {
            None => Ok(self),
            Some(id) => match answer {
                Err(errno) => Err(ResolveErrorView::LookupFailure(errno)),
                Ok(None) => Ok(DraftView { create: true, ..self }),
                Ok(Some(record)) => if self.name is Some && self.name->0 != record.name {
                    Err(
                        ResolveErrorView::IdentityConflict(
                            ConflictView::IdOccupied { kind, id, owner: record.name },
                        ),
                    )
                } else {
                    Ok(
                        DraftView {
                            name: Some(record.name),
                            home: adopted_home(self.home, record.home),
                            ..self
                        },
                    )
                },
            },
        }
    }

    /// The draft after the directory was asked for the draft's name.
    /// A draft without a name asks nothing and stays as it is.
    pub open spec fn adopt_by_name(self, kind: AccountKind, answer: AnswerView) -> Result<
        DraftView,
        ResolveErrorView,
    > {
        match self.name {
            None => Ok(self),
            Some(name) => match answer {
                Err(errno) => Err(ResolveErrorView::LookupFailure(errno)),
                Ok(None) => Ok(DraftView { create: true, ..self }),
                Ok(Some(record)) => if self.id is Some && self.id->0 != record.id {
                    Err(
                        ResolveErrorView::IdentityConflict(
                            ConflictView::NameTaken { kind, name, id: record.id },
                        ),
                    )
                } else {
                    Ok(
                        DraftView {
                            id: Some(record.id),
                            home: adopted_home(self.home, record.home),
                            ..self
                        },
                    )
                },
            },
        }
    }

    /// The identity that the draft settles on: its own name, else the
    /// fallback; without either there is no identity.
    pub open spec fn finish(self, fallback: Option<Seq<char>>) -> Result<
        IdentityView,
        ResolveErrorView,
    > {
        let name = if self.name is Some {
            self.name
        } else {
            fallback
        };
        match name {
            Some(name) => Ok(
                IdentityView { name, id: self.id, home: self.home, create: self.create },
            ),
            None => Err(ResolveErrorView::MissingIdentity),
        }
    }
}

impl Draft {
    /// Takes in what the directory answered when asked for the draft's
    /// numeric id: a record under another name than the draft's is a
    /// conflict, any other record gives the draft its name and home, and no
    /// record means that the account has to be created.
    pub fn adopt_by_id(self, kind: AccountKind, answer: Answer) -> (next: Result<
        Draft,
        ResolveError,
    >)
        ensures
            result_view(next) == self@.adopt_by_id(kind, answer_view(answer)),
    {
        let id = match self.id {
            Some(id) => id,
            None => { return Ok(self); },
        };
        match answer {
            Err(errno) => Err(ResolveError::LookupFailure(errno)),
            Ok(None) => Ok(Draft { name: self.name, id: self.id, home: self.home, create: true }),
            Ok(Some(record)) => {
                let differs = match &self.name {
                    Some(name) => *name != record.name,
                    None => false,
                };
                if differs {
                    Err(
                        ResolveError::IdentityConflict(
                            Conflict::IdOccupied { kind, id, owner: record.name },
                        ),
                    )
                } else {
                    let home = match record.home {
                        Some(home) => Some(home),
                        None => self.home,
                    };
                    Ok(Draft { name: Some(record.name), id: self.id, home, create: self.create })
                }
            },
        }
    }

    /// Takes in what the directory answered when asked for the draft's name:
    /// a record under another numeric id than the draft's is a conflict, any
    /// other record gives the draft its numeric id and home, and no record
    /// means that the account has to be created.
    pub fn adopt_by_name(self, kind: AccountKind, answer: Answer) -> (next: Result<
        Draft,
        ResolveError,
    >)
        ensures
            result_view(next) == self@.adopt_by_name(kind, answer_view(answer)),
    {
        let name = match self.name {
            Some(name) => name,
            None => {
                return Ok(Draft { name: None, id: self.id, home: self.home, create: self.create });
            },
        };
        match answer {
            Err(errno) => Err(ResolveError::LookupFailure(errno)),
            Ok(None) => Ok(Draft { name: Some(name), id: self.id, home: self.home, create: true }),
            Ok(Some(record)) => {
                let differs = match self.id {
                    Some(id) => id != record.id,
                    None => false,
                };
                if differs {
                    Err(
                        ResolveError::IdentityConflict(
                            Conflict::NameTaken { kind, name, id: record.id },
                        ),
                    )
                } else {
                    let home = match record.home {
                        Some(home) => Some(home),
                        None => self.home,
                    };
                    Ok(Draft { name: Some(name), id: Some(record.id), home, create: self.create })
                }
            },
        }
    }

    /// Settles the draft's name: its own, else the fallback.
    pub fn finish(self, fallback: Option<String>) -> (identity: Result<Identity, ResolveError>)
        ensures
            result_view(identity) == self@.finish(fallback.deep_view()),
    {
        let name = match self.name {
            Some(name) => Some(name),
            None => fallback,
        };
        match name {
            Some(name) => Ok(Identity { name, id: self.id, home: self.home, create: self.create }),
            None => Err(ResolveError::MissingIdentity),
        }
    }
}

/// What a resolution comes to: its result, and the lines it wrote on the way.
/// The lines are kept when the result is an error.
pub struct Outcome<T> {
    pub result: Result<T, ResolveErrorView>,
    pub lines: Seq<LineView>,
}

/// Whether a call that returned `result` and took the output from `before`
/// to `after` came to `outcome`.
pub open spec fn produced<T: View>(
    outcome: Outcome<T::V>,
    result: Result<T, ResolveError>,
    before: Seq<LineView>,
    after: Seq<LineView>,
) -> bool {
    &&& result_view(result) == outcome.result
    &&& after == before + outcome.lines
}

/// "User" for users, "Group" for groups.
pub open spec fn kind_title(kind: AccountKind) -> Seq<char> {
    match kind {
        AccountKind::User => "User"@,
        AccountKind::Group => "Group"@,
    }
}

/// The variable that carries a resolved name to the shell.
pub open spec fn export_name(kind: AccountKind) -> Seq<char> {
    match kind {
        AccountKind::User => "PUSER"@,
        AccountKind::Group => "PGROUP"@,
    }
}

/// The message that a numeric id was asked for.
pub open spec fn id_notice(kind: AccountKind, id: u32) -> LineView {
    LineView::Log(id_label(kind) + " set to "@ + decimal(id as nat))
}

/// The message that a name is known.
pub open spec fn name_notice(kind: AccountKind, name: Seq<char>) -> LineView {
    LineView::Log(kind_title(kind) + " set to '"@ + name + "'"@)
}

/// The line that exports a resolved name.
pub open spec fn name_export(kind: AccountKind, name: Seq<char>) -> LineView {
    LineView::Export { name: export_name(kind), value: name }
}

/// The lines written before the directory is asked for a numeric id.
pub open spec fn id_lines(kind: AccountKind, id: Option<u32>) -> Seq<LineView> {
    match id {
        Some(id) => seq![id_notice(kind, id)],
        None => Seq::empty(),
    }
}

/// The lines written before the directory is asked for a name.
pub open spec fn name_lines(kind: AccountKind, name: Option<Seq<char>>) -> Seq<LineView> {
    match name {
        Some(name) => seq![name_notice(kind, name)],
        None => Seq::empty(),
    }
}

/// What resolving one identity comes to, given what the directory answers.
///
/// The numeric id is looked up first, if there is one; then the name, if
/// there is one by then; then the name is settled. `by_id` and `by_name` are
/// the answers to these two questions; an answer to a question that is not
/// asked is not read. The first error ends the resolution.
pub open spec fn identity_outcome(
    kind: AccountKind,
    start: DraftView,
    fallback: Option<Seq<char>>,
    by_id: AnswerView,
    by_name: AnswerView,
) -> Outcome<IdentityView> {
    let first = id_lines(kind, start.id);
    match start.adopt_by_id(kind, by_id) {
        Err(error) => Outcome { result: Err(error), lines: first },
        Ok(named) => {
            let second = first + name_lines(kind, named.name);
            match named.adopt_by_name(kind, by_name) {
                Err(error) => Outcome { result: Err(error), lines: second },
                Ok(numbered) => match numbered.finish(fallback) {
                    Err(error) => Outcome { result: Err(error), lines: second },
                    Ok(identity) => Outcome {
                        result: Ok(identity),
                        lines: second.push(name_export(kind, identity.name)),
                    },
                },
            }
        },
    }
}

/// Whether `by_id` and `by_name` are answers that `dir` can give to the two
/// questions that the resolution from `start` asks.
pub open spec fn answers_fit(
    dir: DirectoryView,
    kind: AccountKind,
    start: DraftView,
    by_id: AnswerView,
    by_name: AnswerView,
) -> bool {
    &&& start.id matches Some(id) ==> dir.answers_by_id(kind, id, by_id)
    &&& start.adopt_by_id(kind, by_id) matches Ok(named) ==> (named.name matches Some(name)
        ==> dir.answers_by_name(kind, name, by_name))
}

/// The answer of a listing to the first question of a resolution.
pub open spec fn listed_by_id(dir: DirectoryView, kind: AccountKind, start: DraftView) -> AnswerView {
    match start.id {
        Some(id) => Ok(first_with_id(dir.records(kind), id)),
        None => Ok(None),
    }
}

/// The answer of a listing to the second question of a resolution.
pub open spec fn listed_by_name(
    dir: DirectoryView,
    kind: AccountKind,
    start: DraftView,
) -> AnswerView {
    match start.adopt_by_id(kind, listed_by_id(dir, kind, start)) {
        Ok(named) => match named.name {
            Some(name) => Ok(first_named(dir.records(kind), name)),
            None => Ok(None),
        },
        Err(_) => Ok(None),
    }
}

/// What resolving one identity against a listing comes to.
pub open spec fn listed_outcome(
    dir: DirectoryView,
    kind: AccountKind,
    start: DraftView,
    fallback: Option<Seq<char>>,
) -> Outcome<IdentityView> {
    identity_outcome(
        kind,
        start,
        fallback,
        listed_by_id(dir, kind, start),
        listed_by_name(dir, kind, start),
    )
}

/// "User" for users, "Group" for groups.
fn kind_title_text(kind: AccountKind) -> (text: &'static str)
    ensures
        text@ == kind_title(kind),
{
    match kind {
        AccountKind::User => "User",
        AccountKind::Group => "Group",
    }
}

/// The name of the variable that carries a resolved name to the shell.
fn export_name_text(kind: AccountKind) -> (text: &'static str)
    ensures
        text@ == export_name(kind),
{
    match kind {
        AccountKind::User => "PUSER",
        AccountKind::Group => "PGROUP",
    }
}

/// Writes the message that a numeric id was asked for.
fn note_id(kind: AccountKind, id: u32) -> (line: Line)
    ensures
        line@ == id_notice(kind, id),
{
    let mut message = String::from_str(id_label_text(kind));
    message.append(" set to ");
    message.append(decimal_text(id).as_str());
    log_line(message)
}

/// Writes the message that a name is known.
fn note_name(kind: AccountKind, name: &String) -> (line: Line)
    ensures
        line@ == name_notice(kind, name@),
{
    let mut message = String::from_str(kind_title_text(kind));
    message.append(" set to '");
    message.append(name.as_str());
    message.append("'");
    log_line(message)
}

/// Resolves one identity: asks `dir` for the numeric id of `start`, if it
/// has one, then for its name, if it has one by then, and settles the name,
/// falling back on `fallback`. The lines are appended to `out`, also when the
/// resolution fails.
pub fn resolve_identity(
    kind: AccountKind,
    start: Draft,
    fallback: Option<String>,
    dir: &Directory,
    out: &mut Vec<Line>,
) -> (result: Result<Identity, ResolveError>)
    ensures
        exists|by_id: AnswerView, by_name: AnswerView|
            #[trigger] answers_fit(dir@, kind, start@, by_id, by_name) && produced(
                identity_outcome(kind, start@, fallback.deep_view(), by_id, by_name),
                result,
                old(out).deep_view(),
                final(out).deep_view(),
            ),
        dir@ is Listed ==> produced(
            listed_outcome(dir@, kind, start@, fallback.deep_view()),
            result,
            old(out).deep_view(),
            final(out).deep_view(),
        ),
{
    let ghost before = out.deep_view();
    let ghost begun = start@;
    let ghost mut by_id: AnswerView = Ok(None);
    let ghost mut by_name: AnswerView = Ok(None);
    let named = match start.id {
        Some(id) => {
            emit(out, note_id(kind, id));
            let answer = dir.find_by_id(kind, id);
            proof {
                by_id = answer_view(answer);
            }
            match start.adopt_by_id(kind, answer) {
                Ok(named) => named,
                Err(error) => {
                    proof {
                        let outcome = identity_outcome(
                            kind,
                            begun,
                            fallback.deep_view(),
                            by_id,
                            by_name,
                        );
                        assert(out.deep_view() =~= before + outcome.lines);
                        assert(answers_fit(dir@, kind, begun, by_id, by_name));
                    }
                    return Err(error);
                },
            }
        },
        None => start,
    };
    assert(begun.adopt_by_id(kind, by_id) == Ok::<DraftView, ResolveErrorView>(named@));
    let ghost midway = named@;
    let numbered = match &named.name {
        Some(name) => {
            emit(out, note_name(kind, name));
            let answer = dir.find_by_name(kind, name);
            proof {
                by_name = answer_view(answer);
            }
            match named.adopt_by_name(kind, answer) {
                Ok(numbered) => numbered,
                Err(error) => {
                    proof {
                        let outcome = identity_outcome(
                            kind,
                            begun,
                            fallback.deep_view(),
                            by_id,
                            by_name,
                        );
                        assert(out.deep_view() =~= before + outcome.lines);
                        assert(answers_fit(dir@, kind, begun, by_id, by_name));
                    }
                    return Err(error);
                },
            }
        },
        None => named,
    };
    assert(midway.adopt_by_name(kind, by_name) == Ok::<DraftView, ResolveErrorView>(numbered@));
    match numbered.finish(fallback) {
        Ok(identity) => {
            emit(out, export_line(export_name_text(kind), &identity.name));
            proof {
                let outcome = identity_outcome(kind, begun, fallback.deep_view(), by_id, by_name);
                assert(out.deep_view() =~= before + outcome.lines);
                assert(answers_fit(dir@, kind, begun, by_id, by_name));
            }
            Ok(identity)
        },
        Err(error) => {
            proof {
                let outcome = identity_outcome(kind, begun, fallback.deep_view(), by_id, by_name);
                assert(out.deep_view() =~= before + outcome.lines);
                assert(answers_fit(dir@, kind, begun, by_id, by_name));
            }
            Err(error)
        },
    }
}

/// The draft that a user's resolution starts from.
pub open spec fn user_start(cfg: ConfigView) -> DraftView {
    DraftView { name: cfg.user, id: cfg.uid, home: cfg.home, create: false }
}

/// The name made up for a user of whom only the numeric id is known.
pub open spec fn synthesized_user_name(uid: u32) -> Seq<char> {
    "user"@ + decimal(uid as nat)
}

/// The name that a user without a name falls back on.
pub open spec fn user_fallback(cfg: ConfigView) -> Option<Seq<char>> {
    match cfg.uid {
        Some(uid) => Some(synthesized_user_name(uid)),
        None => None,
    }
}

/// What resolving the user comes to, given what the directory answers.
pub open spec fn user_outcome(cfg: ConfigView, by_id: AnswerView, by_name: AnswerView) -> Outcome<
    IdentityView,
> {
    identity_outcome(AccountKind::User, user_start(cfg), user_fallback(cfg), by_id, by_name)
}

/// The draft that a group's resolution starts from.
pub open spec fn group_start(cfg: ConfigView) -> DraftView {
    DraftView { name: cfg.group, id: cfg.gid, home: None, create: false }
}

/// What resolving the group comes to, given the user's resolved name and
/// what the directory answers. A group without a name takes the user's.
pub open spec fn group_outcome(
    cfg: ConfigView,
    user_name: Seq<char>,
    by_id: AnswerView,
    by_name: AnswerView,
) -> Outcome<IdentityView> {
    identity_outcome(AccountKind::Group, group_start(cfg), Some(user_name), by_id, by_name)
}

/// Writes the name made up for a user of whom only the numeric id is known.
pub fn synthesize_user_name(uid: u32) -> (name: String)
    ensures
        name@ == synthesized_user_name(uid),
{
    let mut name = String::from_str("user");
    name.append(decimal_text(uid).as_str());
    name
}

/// Resolves the user that `cfg` asks for against `dir`.
///
/// The numeric id is looked up first and decides the name and the home; the
/// name is looked up second and decides the numeric id and the home. A name
/// and a numeric id that belong to different accounts are a conflict. A user
/// without a name is called after the numeric id; without either there is
/// nothing to resolve. The lines are appended to `out`, also on failure.
pub fn resolve_user(cfg: &Config, dir: &Directory, out: &mut Vec<Line>) -> (result: Result<
    Identity,
    ResolveError,
>)
    ensures
        exists|by_id: AnswerView, by_name: AnswerView|
            #[trigger] answers_fit(dir@, AccountKind::User, user_start(cfg@), by_id, by_name)
                && produced(
                user_outcome(cfg@, by_id, by_name),
                result,
                old(out).deep_view(),
                final(out).deep_view(),
            ),
        dir@ is Listed ==> produced(
            listed_outcome(dir@, AccountKind::User, user_start(cfg@), user_fallback(cfg@)),
            result,
            old(out).deep_view(),
            final(out).deep_view(),
        ),
        (cfg@.user is None && cfg@.uid is None) <==> result_view(result) == Err::<
            IdentityView,
            ResolveErrorView,
        >(ResolveErrorView::MissingIdentity),
        cfg@.user is None && cfg@.uid is None ==> final(out).deep_view() == old(out).deep_view(),
{
    let start = Draft { name: cfg.user.clone(), id: cfg.uid, home: cfg.home.clone(), create: false };
    let fallback = match cfg.uid {
        Some(uid) => Some(synthesize_user_name(uid)),
        None => None,
    };
    let result = resolve_identity(AccountKind::User, start, fallback, dir, out);
    proof {
        if cfg@.user is None && cfg@.uid is None {
            assert(out.deep_view() =~= old(out).deep_view());
        }
    }
    result
}

/// Resolves the group that `cfg` asks for against `dir`, for the user whose
/// resolved name is `user_name`.
///
/// The numeric id is looked up first and decides the name; the name is
/// looked up second and decides the numeric id. A name and a numeric id that
/// belong to different groups are a conflict. A group without a name takes
/// the user's name. The lines are appended to `out`, also on failure.
pub fn resolve_group(
    cfg: &Config,
    user_name: &String,
    dir: &Directory,
    out: &mut Vec<Line>,
) -> (result: Result<Identity, ResolveError>)
    ensures
        exists|by_id: AnswerView, by_name: AnswerView|
            #[trigger] answers_fit(dir@, AccountKind::Group, group_start(cfg@), by_id, by_name)
                && produced(
                group_outcome(cfg@, user_name@, by_id, by_name),
                result,
                old(out).deep_view(),
                final(out).deep_view(),
            ),
        dir@ is Listed ==> produced(
            listed_outcome(dir@, AccountKind::Group, group_start(cfg@), Some(user_name@)),
            result,
            old(out).deep_view(),
            final(out).deep_view(),
        ),
{
    let start = Draft { name: cfg.group.clone(), id: cfg.gid, home: None, create: false };
    resolve_identity(AccountKind::Group, start, Some(user_name.clone()), dir, out)
}

/// The user and the group that a configuration resolves to.
#[derive(Debug, PartialEq, Eq)]
pub struct Resolution {
    pub user: String,
    pub group: String,
    pub uid: Option<u32>,
    pub gid: Option<u32>,
    pub home: Option<String>,
    pub create_user: bool,
    pub create_group: bool,
}

/// A `Resolution` over plain values.
pub struct ResolutionView {
    pub user: Seq<char>,
    pub group: Seq<char>,
    pub uid: Option<u32>,
    pub gid: Option<u32>,
    pub home: Option<Seq<char>>,
    pub create_user: bool,
    pub create_group: bool,
}

impl View for Resolution {
    type V = ResolutionView;

    open spec fn view(&self) -> ResolutionView {
        ResolutionView {
            user: self.user@,
            group: self.group@,
            uid: self.uid,
            gid: self.gid,
            home: self.home.deep_view(),
            create_user: self.create_user,
            create_group: self.create_group,
        }
    }
}

/// The resolution made of a resolved user and a resolved group.
pub open spec fn combined(user: IdentityView, group: IdentityView) -> ResolutionView {
    ResolutionView {
        user: user.name,
        group: group.name,
        uid: user.id,
        gid: group.id,
        home: user.home,
        create_user: user.create,
        create_group: group.create,
    }
}

/// What resolving the group after the user has come to `user` comes to.
pub open spec fn resolution_after(
    user: Outcome<IdentityView>,
    group: Outcome<IdentityView>,
) -> Outcome<ResolutionView> {
    match user.result {
        Err(error) => Outcome { result: Err(error), lines: user.lines },
        Ok(user_identity) => match group.result {
            Err(error) => Outcome { result: Err(error), lines: user.lines + group.lines },
            Ok(group_identity) => Outcome {
                result: Ok(combined(user_identity, group_identity)),
                lines: user.lines + group.lines,
            },
        },
    }
}

/// The resolved user's name, where there is one; the empty name where the
/// user's resolution failed and the group's is never begun.
pub open spec fn resolved_name(user: Outcome<IdentityView>) -> Seq<char> {
    match user.result {
        Ok(identity) => identity.name,
        Err(_) => Seq::empty(),
    }
}

/// What a whole resolution comes to, given what the directory answers to the
/// user's two questions and to the group's two: the user is resolved first,
/// then the group, which may take the user's name.
pub open spec fn resolution_outcome(
    cfg: ConfigView,
    user_by_id: AnswerView,
    user_by_name: AnswerView,
    group_by_id: AnswerView,
    group_by_name: AnswerView,
) -> Outcome<ResolutionView> {
    let user = user_outcome(cfg, user_by_id, user_by_name);
    resolution_after(
        user,
        group_outcome(cfg, resolved_name(user), group_by_id, group_by_name),
    )
}

/// Whether the four answers are ones that `dir` can give to the questions
/// that the resolution of `cfg` asks.
pub open spec fn resolution_answers_fit(
    dir: DirectoryView,
    cfg: ConfigView,
    user_by_id: AnswerView,
    user_by_name: AnswerView,
    group_by_id: AnswerView,
    group_by_name: AnswerView,
) -> bool {
    &&& answers_fit(dir, AccountKind::User, user_start(cfg), user_by_id, user_by_name)
    &&& user_outcome(cfg, user_by_id, user_by_name).result is Ok ==> answers_fit(
        dir,
        AccountKind::Group,
        group_start(cfg),
        group_by_id,
        group_by_name,
    )
}

/// What a whole resolution against a listing comes to.
pub open spec fn listed_resolution(cfg: ConfigView, dir: DirectoryView) -> Outcome<ResolutionView> {
    let user = listed_outcome(dir, AccountKind::User, user_start(cfg), user_fallback(cfg));
    resolution_after(
        user,
        listed_outcome(dir, AccountKind::Group, group_start(cfg), Some(resolved_name(user))),
    )
}

/// Resolves the user and then the group that `cfg` asks for against `dir`.
/// The first error ends the resolution. The lines are appended to `out`, also
/// on failure.
pub fn resolve(cfg: &Config, dir: &Directory, out: &mut Vec<Line>) -> (result: Result<
    Resolution,
    ResolveError,
>)
    ensures
        exists|
            user_by_id: AnswerView,
            user_by_name: AnswerView,
            group_by_id: AnswerView,
            group_by_name: AnswerView,
        |
            #[trigger] resolution_answers_fit(
                dir@,
                cfg@,
                user_by_id,
                user_by_name,
                group_by_id,
                group_by_name,
            ) && produced(
                resolution_outcome(cfg@, user_by_id, user_by_name, group_by_id, group_by_name),
                result,
                old(out).deep_view(),
                final(out).deep_view(),
            ),
        dir@ is Listed ==> produced(
            listed_resolution(cfg@, dir@),
            result,
            old(out).deep_view(),
            final(out).deep_view(),
        ),
        (cfg@.user is None && cfg@.uid is None) <==> result_view(result) == Err::<
            ResolutionView,
            ResolveErrorView,
        >(ResolveErrorView::MissingIdentity),
{
    let ghost before = out.deep_view();
    let user = match resolve_user(cfg, dir, out) {
        Ok(user) => user,
        Err(error) => {
            proof {
                let (by_id, by_name) = choose|by_id: AnswerView, by_name: AnswerView|
                    #[trigger] answers_fit(dir@, AccountKind::User, user_start(cfg@), by_id, by_name)
                        && produced(
                        user_outcome(cfg@, by_id, by_name),
                        Err::<Identity, ResolveError>(error),
                        before,
                        out.deep_view(),
                    );
                assert(resolution_answers_fit(dir@, cfg@, by_id, by_name, Ok(None), Ok(None)));
            }
            return Err(error);
        },
    };
    let ghost midway = out.deep_view();
    let group = match resolve_group(cfg, &user.name, dir, out) {
        Ok(group) => group,
        Err(error) => {
            proof {
                let (user_by_id, user_by_name) = choose|by_id: AnswerView, by_name: AnswerView|
                    #[trigger] answers_fit(dir@, AccountKind::User, user_start(cfg@), by_id, by_name)
                        && produced(
                        user_outcome(cfg@, by_id, by_name),
                        Ok::<Identity, ResolveError>(user),
                        before,
                        midway,
                    );
                let (group_by_id, group_by_name) = choose|by_id: AnswerView, by_name: AnswerView|
                    #[trigger] answers_fit(dir@, AccountKind::Group, group_start(cfg@), by_id, by_name)
                        && produced(
                        group_outcome(cfg@, user.name@, by_id, by_name),
                        Err::<Identity, ResolveError>(error),
                        midway,
                        out.deep_view(),
                    );
                let whole = resolution_outcome(
                    cfg@,
                    user_by_id,
                    user_by_name,
                    group_by_id,
                    group_by_name,
                );
                assert(out.deep_view() =~= before + whole.lines);
                assert(resolution_answers_fit(
                    dir@,
                    cfg@,
                    user_by_id,
                    user_by_name,
                    group_by_id,
                    group_by_name,
                ));
                if dir@ is Listed {
                    assert(out.deep_view() =~= before + listed_resolution(cfg@, dir@).lines);
                }
            }
            return Err(error);
        },
    };
    let resolution = Resolution {
        user: user.name,
        group: group.name,
        uid: user.id,
        gid: group.id,
        home: user.home,
        create_user: user.create,
        create_group: group.create,
    };
    proof {
        let (user_by_id, user_by_name) = choose|by_id: AnswerView, by_name: AnswerView|
            #[trigger] answers_fit(dir@, AccountKind::User, user_start(cfg@), by_id, by_name)
                && produced(
                user_outcome(cfg@, by_id, by_name),
                Ok::<Identity, ResolveError>(user),
                before,
                midway,
            );
        let (group_by_id, group_by_name) = choose|by_id: AnswerView, by_name: AnswerView|
            #[trigger] answers_fit(dir@, AccountKind::Group, group_start(cfg@), by_id, by_name)
                && produced(
                group_outcome(cfg@, user.name@, by_id, by_name),
                Ok::<Identity, ResolveError>(group),
                midway,
                out.deep_view(),
            );
        let whole = resolution_outcome(cfg@, user_by_id, user_by_name, group_by_id, group_by_name);
        assert(out.deep_view() =~= before + whole.lines);
        assert(resolution_answers_fit(
            dir@,
            cfg@,
            user_by_id,
            user_by_name,
            group_by_id,
            group_by_name,
        ));
        if dir@ is Listed {
            assert(out.deep_view() =~= before + listed_resolution(cfg@, dir@).lines);
        }
    }
    Ok(resolution)
}

} // verus!
