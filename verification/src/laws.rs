//! What holds of every resolution, proved from the definitions.

use crate::account::{AccountKind, AccountRecordView, AnswerView, DirectoryView};
use crate::config::ConfigView;
use crate::error::{ConflictView, ResolveError, ResolveErrorView};
use crate::line::LineView;
use crate::resolve::{
    group_outcome, group_start, identity_outcome, listed_by_id, listed_by_name,
    listed_resolution, produced, resolution_answers_fit, resolution_outcome, result_view,
    synthesized_user_name, user_outcome, user_start, DraftView, IdentityView, Resolution,
    ResolutionView,
};
use crate::setup::{
    extra_group_creations, extra_group_names, group_creation, home_lines, memberships,
    setup_lines, user_creation,
};
use nix::errno::Errno;
use vstd::prelude::*;

verus! {

/// A configuration with neither a user name nor a numeric user id resolves
/// to nothing, whatever the directory holds: the user's resolution fails
/// with `MissingIdentity` before a line is written.
pub proof fn law_missing_identity(cfg: ConfigView, by_id: AnswerView, by_name: AnswerView)
    requires
        cfg.user is None,
        cfg.uid is None,
    ensures
        user_outcome(cfg, by_id, by_name).result == Err::<IdentityView, ResolveErrorView>(
            ResolveErrorView::MissingIdentity,
        ),
        user_outcome(cfg, by_id, by_name).lines == Seq::<LineView>::empty(),
{
}

/// The same of a whole resolution: without a user name and a numeric user
/// id it fails with `MissingIdentity`, and the group is never looked at.
pub proof fn law_missing_identity_ends_resolution(
    cfg: ConfigView,
    user_by_id: AnswerView,
    user_by_name: AnswerView,
    group_by_id: AnswerView,
    group_by_name: AnswerView,
)
    requires
        cfg.user is None,
        cfg.uid is None,
    ensures
        resolution_outcome(cfg, user_by_id, user_by_name, group_by_id, group_by_name).result
            == Err::<ResolutionView, ResolveErrorView>(ResolveErrorView::MissingIdentity),
        resolution_outcome(cfg, user_by_id, user_by_name, group_by_id, group_by_name).lines
            == Seq::<LineView>::empty(),
{
    law_missing_identity(cfg, user_by_id, user_by_name);
}

/// Where the numeric id that is asked for belongs to an account with
/// another name than the one that is asked for, the resolution fails with
/// the conflict that names the owner. This holds of users and of groups.
pub proof fn law_id_of_another_name_conflicts(
    kind: AccountKind,
    start: DraftView,
    fallback: Option<Seq<char>>,
    owner: AccountRecordView,
    by_name: AnswerView,
)
    requires
        start.id is Some,
        start.name is Some,
        start.name->0 != owner.name,
    ensures
        identity_outcome(kind, start, fallback, Ok(Some(owner)), by_name).result == Err::<
            IdentityView,
            ResolveErrorView,
        >(
            ResolveErrorView::IdentityConflict(
                ConflictView::IdOccupied { kind, id: start.id->0, owner: owner.name },
            ),
        ),
{
}

/// Where the name that is asked for belongs to an account with another
/// numeric id than the one that is asked for, the resolution fails with a
/// conflict, provided the directory could be asked for the numeric id. Where
/// that first lookup found nothing, or an account of the same name, the
/// conflict is the one that names the other numeric id. This holds of users
/// and of groups.
pub proof fn law_name_of_another_id_conflicts(
    kind: AccountKind,
    start: DraftView,
    fallback: Option<Seq<char>>,
    by_id: AnswerView,
    holder: AccountRecordView,
)
    requires
        start.id is Some,
        start.name is Some,
        start.id->0 != holder.id,
        by_id is Ok,
    ensures
        identity_outcome(kind, start, fallback, by_id, Ok(Some(holder))).result matches Err(
            ResolveErrorView::IdentityConflict(_),
        ),
        (by_id->Ok_0 matches Some(owner) ==> owner.name == start.name->0) ==> identity_outcome(
            kind,
            start,
            fallback,
            by_id,
            Ok(Some(holder)),
        ).result == Err::<IdentityView, ResolveErrorView>(
            ResolveErrorView::IdentityConflict(
                ConflictView::NameTaken { kind, name: start.name->0, id: holder.id },
            ),
        ),
{
}

/// Both conflicts, said of a configuration's user: a numeric id owned under
/// another name, and a name held under another numeric id, each end the
/// user's resolution with `IdentityConflict`.
pub proof fn law_user_conflicts(
    cfg: ConfigView,
    by_id: AnswerView,
    by_name: AnswerView,
    found: AccountRecordView,
)
    requires
        cfg.user is Some,
        cfg.uid is Some,
        (by_id == Ok::<Option<AccountRecordView>, Errno>(Some(found)) && found.name != cfg.user->0)
            || (by_id is Ok && by_name == Ok::<Option<AccountRecordView>, Errno>(Some(found))
            && found.id != cfg.uid->0),
    ensures
        user_outcome(cfg, by_id, by_name).result matches Err(
            ResolveErrorView::IdentityConflict(_),
        ),
{
}

/// Where only a numeric user id is given and no account has it, the user is
/// to be created under the name made up from the id, with that id.
pub proof fn law_unknown_uid_creates_user(cfg: ConfigView, by_name: AnswerView)
    requires
        cfg.user is None,
        cfg.uid is Some,
    ensures
        user_outcome(cfg, Ok(None), by_name).result == Ok::<IdentityView, ResolveErrorView>(
            IdentityView {
                name: synthesized_user_name(cfg.uid->0),
                id: cfg.uid,
                home: cfg.home,
                create: true,
            },
        ),
{
}

/// Where only a user name is given and no account has it, the user is to be
/// created under that name, and the numeric id stays open.
pub proof fn law_unknown_name_creates_user(cfg: ConfigView, by_id: AnswerView)
    requires
        cfg.user is Some,
        cfg.uid is None,
    ensures
        user_outcome(cfg, by_id, Ok(None)).result == Ok::<IdentityView, ResolveErrorView>(
            IdentityView { name: cfg.user->0, id: None, home: cfg.home, create: true },
        ),
{
}

/// Where neither a group name nor a numeric group id is given, the group
/// takes the user's resolved name. Nothing is looked up, so nothing says
/// that the group has to be created.
pub proof fn law_group_defaults_to_user_name(
    cfg: ConfigView,
    user_name: Seq<char>,
    by_id: AnswerView,
    by_name: AnswerView,
)
    requires
        cfg.group is None,
        cfg.gid is None,
    ensures
        group_outcome(cfg, user_name, by_id, by_name).result == Ok::<
            IdentityView,
            ResolveErrorView,
        >(IdentityView { name: user_name, id: None, home: None, create: false }),
{
}

/// A resolution that succeeds keeps what was asked for: a name that was
/// given is the resolved name, and a numeric id that was given is the
/// resolved numeric id. A lookup never overrides either; where it would, the
/// resolution fails.
pub proof fn law_request_is_kept(
    kind: AccountKind,
    start: DraftView,
    fallback: Option<Seq<char>>,
    by_id: AnswerView,
    by_name: AnswerView,
)
    requires
        identity_outcome(kind, start, fallback, by_id, by_name).result is Ok,
    ensures
        start.name matches Some(name) ==> identity_outcome(
            kind,
            start,
            fallback,
            by_id,
            by_name,
        ).result->Ok_0.name == name,
        start.id matches Some(id) ==> identity_outcome(
            kind,
            start,
            fallback,
            by_id,
            by_name,
        ).result->Ok_0.id == Some(id),
{
}

/// An account is reused exactly where a lookup found it: the identity has
/// to be created if and only if one of the lookups that were made found no
/// record.
pub proof fn law_create_iff_not_found(
    kind: AccountKind,
    start: DraftView,
    fallback: Option<Seq<char>>,
    by_id: AnswerView,
    by_name: AnswerView,
)
    requires
        !start.create,
        identity_outcome(kind, start, fallback, by_id, by_name).result is Ok,
    ensures
        identity_outcome(kind, start, fallback, by_id, by_name).result->Ok_0.create <==> (
        start.id is Some && by_id == Ok::<Option<AccountRecordView>, Errno>(None)) || (
        start.adopt_by_id(kind, by_id)->Ok_0.name is Some && by_name == Ok::<
            Option<AccountRecordView>,
            Errno,
        >(None)),
{
}

/// A numeric id stays open only for an account that does not exist yet and
/// for which none was asked: an identity that is resolved without a numeric
/// id had none to begin with, and if it had a name to begin with, it has to
/// be created.
pub proof fn law_open_id_means_new_account(
    kind: AccountKind,
    start: DraftView,
    fallback: Option<Seq<char>>,
    by_id: AnswerView,
    by_name: AnswerView,
)
    requires
        identity_outcome(kind, start, fallback, by_id, by_name).result matches Ok(identity)
            && identity.id is None,
    ensures
        start.id is None,
        start.name is Some ==> identity_outcome(
            kind,
            start,
            fallback,
            by_id,
            by_name,
        ).result->Ok_0.create,
{
}

/// A resolved name is never empty, as long as no empty name is asked for
/// and the directory holds no account with an empty name.
pub proof fn law_resolved_names_are_not_empty(
    cfg: ConfigView,
    user_by_id: AnswerView,
    user_by_name: AnswerView,
    group_by_id: AnswerView,
    group_by_name: AnswerView,
)
    requires
        cfg.user matches Some(name) ==> name.len() > 0,
        cfg.group matches Some(name) ==> name.len() > 0,
        user_by_id matches Ok(Some(record)) ==> record.name.len() > 0,
        group_by_id matches Ok(Some(record)) ==> record.name.len() > 0,
    ensures
        resolution_outcome(
            cfg,
            user_by_id,
            user_by_name,
            group_by_id,
            group_by_name,
        ).result matches Ok(res) ==> res.user.len() > 0 && res.group.len() > 0,
{
    reveal_strlit("user");
}

/// Two runs of a resolution with the same configuration against the same
/// listing come to the same result and write the same lines.
pub proof fn law_resolution_repeats(
    cfg: ConfigView,
    dir: DirectoryView,
    first: Result<Resolution, ResolveError>,
    first_before: Seq<LineView>,
    first_after: Seq<LineView>,
    second: Result<Resolution, ResolveError>,
    second_before: Seq<LineView>,
    second_after: Seq<LineView>,
)
    requires
        dir is Listed,
        produced(listed_resolution(cfg, dir), first, first_before, first_after),
        produced(listed_resolution(cfg, dir), second, second_before, second_after),
    ensures
        result_view(first) == result_view(second),
        first_after.skip(first_before.len() as int) == second_after.skip(
            second_before.len() as int,
        ),
{
}

/// A resolution against a listing is a resolution under the answers that the
/// listing gives: whatever holds of a resolution for all answers holds of it.
pub proof fn law_listing_gives_its_answers(cfg: ConfigView, dir: DirectoryView)
    requires
        dir is Listed,
    ensures
        ({
            let user_start = user_start(cfg);
            let group_start = group_start(cfg);
            let user_by_id = listed_by_id(dir, AccountKind::User, user_start);
            let user_by_name = listed_by_name(dir, AccountKind::User, user_start);
            let group_by_id = listed_by_id(dir, AccountKind::Group, group_start);
            let group_by_name = listed_by_name(dir, AccountKind::Group, group_start);
            &&& resolution_answers_fit(
                dir,
                cfg,
                user_by_id,
                user_by_name,
                group_by_id,
                group_by_name,
            )
            &&& listed_resolution(cfg, dir) == resolution_outcome(
                cfg,
                user_by_id,
                user_by_name,
                group_by_id,
                group_by_name,
            )
        }),
{
}

/// The memberships in the groups that are created for extra numeric ids
/// come before the memberships in the extra groups that are given by name,
/// each in the order given.
pub proof fn law_created_groups_are_joined_first(
    user: Seq<char>,
    gids: Seq<u32>,
    named: Seq<Seq<char>>,
)
    ensures
        memberships(user, extra_group_names(gids) + named) == memberships(
            user,
            extra_group_names(gids),
        ) + memberships(user, named),
    decreases named.len(),
{
    if named.len() > 0 {
        let created = extra_group_names(gids);
        law_created_groups_are_joined_first(user, gids, named.drop_last());
        assert((created + named).drop_last() =~= created + named.drop_last());
    }
}

/// Whether `line`, if it exports a variable, exports one of the three that
/// carry the resolution, with the value that `res` has for it.
pub open spec fn binding_agrees(line: LineView, res: ResolutionView) -> bool {
    line matches LineView::Export { name, value } ==> {
        ||| name == "PUSER"@ && value == res.user
        ||| name == "PGROUP"@ && value == res.group
        ||| name == "HOME"@ && res.home == Some(value)
    }
}

/// No line that creates a group for an extra numeric id exports anything.
proof fn lemma_creations_export_nothing(gids: Seq<u32>, i: int)
    requires
        0 <= i < extra_group_creations(gids).len(),
    ensures
        !(extra_group_creations(gids)[i] is Export),
    decreases gids.len(),
{
    if gids.len() > 0 {
        let earlier = extra_group_creations(gids.drop_last());
        if i < earlier.len() {
            lemma_creations_export_nothing(gids.drop_last(), i);
        }
    }
}

/// No line that adds a membership exports anything.
proof fn lemma_memberships_export_nothing(user: Seq<char>, groups: Seq<Seq<char>>, i: int)
    requires
        0 <= i < memberships(user, groups).len(),
    ensures
        !(memberships(user, groups)[i] is Export),
    decreases groups.len(),
{
    if groups.len() > 0 {
        let earlier = memberships(user, groups.drop_last());
        if i < earlier.len() {
            lemma_memberships_export_nothing(user, groups.drop_last(), i);
        }
    }
}

/// Every variable that a successful resolution exports carries the value
/// that the resolution has for it: `PUSER` the user's name, `PGROUP` the
/// group's.
pub proof fn law_resolution_exports_agree(
    cfg: ConfigView,
    user_by_id: AnswerView,
    user_by_name: AnswerView,
    group_by_id: AnswerView,
    group_by_name: AnswerView,
)
    requires
        resolution_outcome(cfg, user_by_id, user_by_name, group_by_id, group_by_name).result is Ok,
    ensures
        forall|i: int|
            #![auto]
            0 <= i < resolution_outcome(
                cfg,
                user_by_id,
                user_by_name,
                group_by_id,
                group_by_name,
            ).lines.len() ==> binding_agrees(
                resolution_outcome(
                    cfg,
                    user_by_id,
                    user_by_name,
                    group_by_id,
                    group_by_name,
                ).lines[i],
                resolution_outcome(
                    cfg,
                    user_by_id,
                    user_by_name,
                    group_by_id,
                    group_by_name,
                ).result->Ok_0,
            ),
{
}

/// Every variable that the setup lines export carries the value that the
/// resolution has for it: only `HOME` is exported there, with the
/// resolution's home.
pub proof fn law_setup_exports_agree(cfg: ConfigView, res: ResolutionView, home_exists: bool)
    ensures
        forall|i: int|
            #![auto]
            0 <= i < setup_lines(cfg, res, home_exists).len() ==> binding_agrees(
                setup_lines(cfg, res, home_exists)[i],
                res,
            ),
{
    let groups = extra_group_names(cfg.extra_gids) + cfg.extra_groups;
    let all = setup_lines(cfg, res, home_exists);
    assert forall|i: int| 0 <= i < all.len() implies binding_agrees(#[trigger] all[i], res) by {
        let creations_from = group_creation(res).len() + user_creation(res).len();
        let memberships_from = creations_from + extra_group_creations(cfg.extra_gids).len();
        let home_from = memberships_from + memberships(res.user, groups).len();
        if creations_from <= i < memberships_from {
            lemma_creations_export_nothing(cfg.extra_gids, i - creations_from);
        } else if memberships_from <= i < home_from {
            lemma_memberships_export_nothing(res.user, groups, i - memberships_from);
        }
    }
}

} // verus!
