//! The lines that create and configure a resolved user and group.

use crate::config::{Config, ConfigView};
use crate::line::{emit, export_line, log_line, push_word, run_line, Line, LineView};
use crate::resolve::{Resolution, ResolutionView};
use crate::text::{decimal, decimal_text};
use vstd::prelude::*;

verus! {

/// The arguments that pass a numeric id under `flag`; none without an id.
pub open spec fn id_args(flag: Seq<char>, id: Option<u32>) -> Seq<Seq<char>> {
    match id {
        Some(id) => seq![flag, decimal(id as nat)],
        None => Seq::empty(),
    }
}

/// The arguments of the command that creates a group.
pub open spec fn groupadd_args(gid: Option<u32>, name: Seq<char>) -> Seq<Seq<char>> {
    id_args("--gid"@, gid).push(name)
}

/// The arguments of the command that creates a user with `group` as its
/// primary group, without a home and without a group of its own.
pub open spec fn useradd_args(uid: Option<u32>, group: Seq<char>, name: Seq<char>) -> Seq<
    Seq<char>,
> {
    seq!["--no-create-home"@, "--no-user-group"@] + id_args("--uid"@, uid) + seq![
        "--gid"@,
        group,
        name,
    ]
}

/// The lines that create the primary group, where it has to be created.
pub open spec fn group_creation(res: ResolutionView) -> Seq<LineView> {
    if res.create_group {
        seq![
            LineView::Log("Create group "@ + res.group),
            LineView::Run { program: "groupadd"@, args: groupadd_args(res.gid, res.group) },
        ]
    } else {
        Seq::empty()
    }
}

/// The lines that create the user, where it has to be created.
pub open spec fn user_creation(res: ResolutionView) -> Seq<LineView> {
    if res.create_user {
        seq![
            LineView::Log("Create user "@ + res.user),
            LineView::Run {
                program: "useradd"@,
                args: useradd_args(res.uid, res.group, res.user),
            },
        ]
    } else {
        Seq::empty()
    }
}

/// The name of the group that is created for an extra numeric id.
pub open spec fn extra_group_name(gid: u32) -> Seq<char> {
    "group"@ + decimal(gid as nat)
}

/// The names of the groups that are created for extra numeric ids, in the
/// order of the ids.
pub open spec fn extra_group_names(gids: Seq<u32>) -> Seq<Seq<char>> {
    Seq::new(gids.len(), |i: int| extra_group_name(gids[i]))
}

/// The lines that create the group for one extra numeric id. No lookup
/// precedes them: the group is created whether or not it exists.
pub open spec fn extra_group_creation(gid: u32) -> Seq<LineView> {
    seq![
        LineView::Log("Create group for extra GID "@ + decimal(gid as nat)),
        LineView::Run {
            program: "groupadd"@,
            args: seq!["--gid"@, decimal(gid as nat), extra_group_name(gid)],
        },
    ]
}

/// The lines that create the groups for all extra numeric ids, in order.
pub open spec fn extra_group_creations(gids: Seq<u32>) -> Seq<LineView>
    decreases gids.len(),
{
    if gids.len() == 0 {
        Seq::empty()
    } else {
        extra_group_creations(gids.drop_last()) + extra_group_creation(gids.last())
    }
}

/// The lines that make `user` a member of `group`.
pub open spec fn membership(user: Seq<char>, group: Seq<char>) -> Seq<LineView> {
    seq![
        LineView::Log("Add user "@ + user + " to extra group "@ + group),
        LineView::Run { program: "usermod"@, args: seq!["-aG"@, group, user] },
    ]
}

/// The lines that make `user` a member of each of `groups`, in order.
pub open spec fn memberships(user: Seq<char>, groups: Seq<Seq<char>>) -> Seq<LineView>
    decreases groups.len(),
{
    if groups.len() == 0 {
        Seq::empty()
    } else {
        memberships(user, groups.drop_last()) + membership(user, groups.last())
    }
}

/// The lines that set up the home directory: it is created where it does
/// not exist, then handed to the user and the group and made the user's
/// home, and last exported.
pub open spec fn home_setup(
    home: Seq<char>,
    user: Seq<char>,
    group: Seq<char>,
    home_exists: bool,
) -> Seq<LineView> {
    let creation = if home_exists {
        Seq::empty()
    } else {
        seq![
            LineView::Log("Home directory '"@ + home + "' not found. Creating it now..."@),
            LineView::Run { program: "mkdir"@, args: seq!["-p"@, home] },
        ]
    };
    creation + seq![
        LineView::Log("Set ownership of home directory"@),
        LineView::Run { program: "chown"@, args: seq!["-R"@, user + ":"@ + group, home] },
        LineView::Log("Set user's home directory"@),
        LineView::Run { program: "usermod"@, args: seq!["-d"@, home, user] },
        LineView::Export { name: "HOME"@, value: home },
    ]
}

/// The lines about the home directory; none where the resolution has no home.
pub open spec fn home_lines(res: ResolutionView, home_exists: bool) -> Seq<LineView> {
    match res.home {
        Some(home) => home_setup(home, res.user, res.group, home_exists),
        None => Seq::empty(),
    }
}

/// All lines that set up a resolved user and group, in the order in which
/// the shell has to run them: the primary group before the user, whose
/// creation names it; then the groups for the extra numeric ids; then the
/// memberships, those in the groups just created before those in the groups
/// given by name; then the home directory.
pub open spec fn setup_lines(cfg: ConfigView, res: ResolutionView, home_exists: bool) -> Seq<
    LineView,
> {
    group_creation(res) + user_creation(res) + extra_group_creations(cfg.extra_gids)
        + memberships(res.user, extra_group_names(cfg.extra_gids) + cfg.extra_groups)
        + home_lines(res, home_exists)
}

/// Appends the arguments that pass a numeric id under `flag`.
fn push_id_args(args: &mut Vec<String>, flag: &str, id: Option<u32>)
    ensures
        final(args).deep_view() == old(args).deep_view() + id_args(flag@, id),
{
    match id {
        Some(id) => {
            push_word(args, flag);
            push_word(args, decimal_text(id).as_str());
        },
        None => {
        },
    }
}

/// A list of words without a word in it.
fn no_words() -> (words: Vec<String>)
    ensures
        words.deep_view() == Seq::<Seq<char>>::empty(),
{
    let words: Vec<String> = Vec::new();
    words
}

/// Appends the lines that create the primary group, where it has to be
/// created.
pub fn emit_group_creation(res: &Resolution, out: &mut Vec<Line>)
    ensures
        final(out).deep_view() == old(out).deep_view() + group_creation(res@),
{
    if res.create_group {
        let mut message = String::from_str("Create group ");
        message.append(res.group.as_str());
        let mut args = no_words();
        push_id_args(&mut args, "--gid", res.gid);
        push_word(&mut args, res.group.as_str());
        emit(out, log_line(message));
        emit(out, run_line("groupadd", args));
    }
}

/// Appends the lines that create the user, where it has to be created.
pub fn emit_user_creation(res: &Resolution, out: &mut Vec<Line>)
    ensures
        final(out).deep_view() == old(out).deep_view() + user_creation(res@),
{
    if res.create_user {
        let mut message = String::from_str("Create user ");
        message.append(res.user.as_str());
        let mut args = no_words();
        push_word(&mut args, "--no-create-home");
        push_word(&mut args, "--no-user-group");
        push_id_args(&mut args, "--uid", res.uid);
        push_word(&mut args, "--gid");
        push_word(&mut args, res.group.as_str());
        push_word(&mut args, res.user.as_str());
        assert(args.deep_view() =~= useradd_args(res.uid, res.group@, res.user@));
        emit(out, log_line(message));
        emit(out, run_line("useradd", args));
    }
}

/// Writes the name of the group that is created for an extra numeric id.
pub fn name_extra_group(gid: u32) -> (name: String)
    ensures
        name@ == extra_group_name(gid),
{
    let mut name = String::from_str("group");
    name.append(decimal_text(gid).as_str());
    name
}

/// Appends the lines that create the group for each extra numeric id, and
/// returns the names of these groups.
pub fn emit_extra_group_creations(gids: &Vec<u32>, out: &mut Vec<Line>) -> (names: Vec<String>)
    ensures
        final(out).deep_view() == old(out).deep_view() + extra_group_creations(gids@),
        names.deep_view() == extra_group_names(gids@),
{
    let mut names = no_words();
    let mut i: usize = 0;
    while i < gids.len()
        invariant
            i <= gids.len(),
            out.deep_view() == old(out).deep_view() + extra_group_creations(gids@.take(i as int)),
            names.deep_view() == extra_group_names(gids@.take(i as int)),
        decreases gids.len() - i,
    {
        let gid = gids[i];
        let name = name_extra_group(gid);
        let mut message = String::from_str("Create group for extra GID ");
        message.append(decimal_text(gid).as_str());
        let mut args = no_words();
        push_word(&mut args, "--gid");
        push_word(&mut args, decimal_text(gid).as_str());
        push_word(&mut args, name.as_str());
        assert(args.deep_view() =~= seq!["--gid"@, decimal(gid as nat), extra_group_name(gid)]);
        emit(out, log_line(message));
        emit(out, run_line("groupadd", args));
        push_word(&mut names, name.as_str());
        proof {
            let next = gids@.take(i as int + 1);
            assert(next.drop_last() =~= gids@.take(i as int));
        }
        i += 1;
    }
    assert(gids@.take(i as int) =~= gids@);
    names
}

/// Appends the lines that make `user` a member of each of `groups`.
pub fn emit_memberships(user: &String, groups: &Vec<String>, out: &mut Vec<Line>)
    ensures
        final(out).deep_view() == old(out).deep_view() + memberships(user@, groups.deep_view()),
{
    let ghost all = groups.deep_view();
    let mut i: usize = 0;
    while i < groups.len()
        invariant
            i <= groups.len(),
            all == groups.deep_view(),
            out.deep_view() == old(out).deep_view() + memberships(user@, all.take(i as int)),
        decreases groups.len() - i,
    {
        let group = &groups[i];
        let mut message = String::from_str("Add user ");
        message.append(user.as_str());
        message.append(" to extra group ");
        message.append(group.as_str());
        let mut args = no_words();
        push_word(&mut args, "-aG");
        push_word(&mut args, group.as_str());
        push_word(&mut args, user.as_str());
        assert(args.deep_view() =~= seq!["-aG"@, group@, user@]);
        emit(out, log_line(message));
        emit(out, run_line("usermod", args));
        proof {
            let next = all.take(i as int + 1);
            assert(next.drop_last() =~= all.take(i as int));
        }
        i += 1;
    }
    assert(all.take(i as int) =~= all);
}

/// Appends the lines about the home directory, where the resolution has a
/// home. `home_exists` says whether that directory is there already.
pub fn emit_home(res: &Resolution, home_exists: bool, out: &mut Vec<Line>)
    ensures
        final(out).deep_view() == old(out).deep_view() + home_lines(res@, home_exists),
{
    match &res.home {
        Some(home) => {
            if !home_exists {
                let mut message = String::from_str("Home directory '");
                message.append(home.as_str());
                message.append("' not found. Creating it now...");
                let mut args = no_words();
                push_word(&mut args, "-p");
                push_word(&mut args, home.as_str());
                assert(args.deep_view() =~= seq!["-p"@, home@]);
                emit(out, log_line(message));
                emit(out, run_line("mkdir", args));
            }
            let mut owner = res.user.clone();
            owner.append(":");
            owner.append(res.group.as_str());
            let mut chown_args = no_words();
            push_word(&mut chown_args, "-R");
            push_word(&mut chown_args, owner.as_str());
            push_word(&mut chown_args, home.as_str());
            assert(chown_args.deep_view() =~= seq!["-R"@, res.user@ + ":"@ + res.group@, home@]);
            let mut usermod_args = no_words();
            push_word(&mut usermod_args, "-d");
            push_word(&mut usermod_args, home.as_str());
            push_word(&mut usermod_args, res.user.as_str());
            assert(usermod_args.deep_view() =~= seq!["-d"@, home@, res.user@]);
            emit(out, log_line(String::from_str("Set ownership of home directory")));
            emit(out, run_line("chown", chown_args));
            emit(out, log_line(String::from_str("Set user's home directory")));
            emit(out, run_line("usermod", usermod_args));
            emit(out, export_line("HOME", home));
        },
        None => {
        },
    }
}

/// Appends `more` to `words`.
fn push_words(words: &mut Vec<String>, more: &Vec<String>)
    ensures
        final(words).deep_view() == old(words).deep_view() + more.deep_view(),
{
    let ghost all = more.deep_view();
    let mut i: usize = 0;
    while i < more.len()
        invariant
            i <= more.len(),
            all == more.deep_view(),
            words.deep_view() == old(words).deep_view() + all.take(i as int),
        decreases more.len() - i,
    {
        push_word(words, more[i].as_str());
        i += 1;
    }
}

/// Appends all lines that set up the resolved user and group: the creation
/// of the primary group and of the user, where needed; the creation of a
/// group for each extra numeric id of `cfg`; the user's membership in each of
/// these and then in each extra group that `cfg` names; and the setup of the
/// home directory, where there is one.
pub fn emit_setup(cfg: &Config, res: &Resolution, home_exists: bool, out: &mut Vec<Line>)
    ensures
        final(out).deep_view() == old(out).deep_view() + setup_lines(cfg@, res@, home_exists),
{
    emit_group_creation(res, out);
    emit_user_creation(res, out);
    let mut joined = emit_extra_group_creations(&cfg.extra_gids, out);
    push_words(&mut joined, &cfg.extra_groups);
    emit_memberships(&res.user, &joined, out);
    emit_home(res, home_exists, out);
}

} // verus!
