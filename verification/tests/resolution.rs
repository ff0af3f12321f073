use nix::errno::Errno;
use setup_user::account::{AccountKind, AccountRecord, Directory};
use setup_user::config::Config;
use setup_user::error::{Conflict, ResolveError};
use setup_user::line::Line;
use setup_user::resolve::{
    resolve, resolve_group, resolve_identity, resolve_user, synthesize_user_name, Draft, Identity,
    Resolution,
};

fn blank() -> Config {
    Config {
        user: None,
        group: None,
        uid: None,
        gid: None,
        home: None,
        extra_gids: Vec::new(),
        extra_groups: Vec::new(),
    }
}

fn user_record(name: &str, id: u32, home: &str) -> AccountRecord {
    AccountRecord { name: name.to_string(), id, home: Some(home.to_string()) }
}

fn group_record(name: &str, id: u32) -> AccountRecord {
    AccountRecord { name: name.to_string(), id, home: None }
}

fn listing(users: Vec<AccountRecord>, groups: Vec<AccountRecord>) -> Directory {
    Directory::Listed { users, groups }
}

fn log(message: &str) -> Line {
    Line::Log(message.to_string())
}

fn export(name: &str, value: &str) -> Line {
    Line::Export { name: name.to_string(), value: value.to_string() }
}

#[test]
fn missing_user_and_uid_is_an_error() {
    let mut cfg = blank();
    cfg.group = Some("staff".to_string());
    cfg.gid = Some(50);
    cfg.home = Some("/srv".to_string());
    let dir = listing(vec![user_record("root", 0, "/root")], vec![group_record("staff", 50)]);
    let mut out = Vec::new();
    assert_eq!(resolve_user(&cfg, &dir, &mut out), Err(ResolveError::MissingIdentity));
    assert!(out.is_empty());
    assert_eq!(resolve(&cfg, &dir, &mut out), Err(ResolveError::MissingIdentity));
    assert!(out.is_empty());
}

#[test]
fn missing_user_and_uid_is_an_error_for_the_system_too() {
    let mut out = Vec::new();
    assert_eq!(resolve(&blank(), &Directory::System, &mut out), Err(ResolveError::MissingIdentity));
    assert!(out.is_empty());
}

#[test]
fn uid_owned_under_another_name_conflicts() {
    let mut cfg = blank();
    cfg.user = Some("alice".to_string());
    cfg.uid = Some(1000);
    let dir = listing(vec![user_record("bob", 1000, "/home/bob")], vec![]);
    let mut out = Vec::new();
    assert_eq!(
        resolve_user(&cfg, &dir, &mut out),
        Err(ResolveError::IdentityConflict(Conflict::IdOccupied {
            kind: AccountKind::User,
            id: 1000,
            owner: "bob".to_string(),
        }))
    );
    assert_eq!(out, vec![log("UID set to 1000")]);
}

#[test]
fn name_held_under_another_uid_conflicts() {
    let mut cfg = blank();
    cfg.user = Some("alice".to_string());
    cfg.uid = Some(1000);
    let dir = listing(vec![user_record("alice", 1001, "/home/alice")], vec![]);
    let mut out = Vec::new();
    assert_eq!(
        resolve_user(&cfg, &dir, &mut out),
        Err(ResolveError::IdentityConflict(Conflict::NameTaken {
            kind: AccountKind::User,
            name: "alice".to_string(),
            id: 1001,
        }))
    );
    assert_eq!(out, vec![log("UID set to 1000"), log("User set to 'alice'")]);
}

#[test]
fn name_and_uid_of_two_accounts_conflict_at_the_uid() {
    let mut cfg = blank();
    cfg.user = Some("alice".to_string());
    cfg.uid = Some(1000);
    let dir = listing(
        vec![user_record("alice", 1001, "/home/alice"), user_record("bob", 1000, "/home/bob")],
        vec![],
    );
    let mut out = Vec::new();
    assert_eq!(
        resolve(&cfg, &dir, &mut out),
        Err(ResolveError::IdentityConflict(Conflict::IdOccupied {
            kind: AccountKind::User,
            id: 1000,
            owner: "bob".to_string(),
        }))
    );
    assert_eq!(out, vec![log("UID set to 1000")]);
}

#[test]
fn unknown_uid_alone_creates_a_user_named_after_it() {
    let mut cfg = blank();
    cfg.uid = Some(1234);
    let dir = listing(vec![user_record("root", 0, "/root")], vec![]);
    let mut out = Vec::new();
    assert_eq!(
        resolve_user(&cfg, &dir, &mut out),
        Ok(Identity { name: "user1234".to_string(), id: Some(1234), home: None, create: true })
    );
    assert_eq!(out, vec![log("UID set to 1234"), export("PUSER", "user1234")]);
}

#[test]
fn unknown_name_alone_creates_a_user_without_uid() {
    let mut cfg = blank();
    cfg.user = Some("alice".to_string());
    let dir = listing(vec![user_record("root", 0, "/root")], vec![]);
    let mut out = Vec::new();
    assert_eq!(
        resolve_user(&cfg, &dir, &mut out),
        Ok(Identity { name: "alice".to_string(), id: None, home: None, create: true })
    );
    assert_eq!(out, vec![log("User set to 'alice'"), export("PUSER", "alice")]);
}

#[test]
fn unspecified_group_takes_the_user_name() {
    let cfg = blank();
    let dir = listing(vec![], vec![group_record("alice", 77)]);
    let mut out = Vec::new();
    assert_eq!(
        resolve_group(&cfg, &"alice".to_string(), &dir, &mut out),
        Ok(Identity { name: "alice".to_string(), id: None, home: None, create: false })
    );
    assert_eq!(out, vec![export("PGROUP", "alice")]);
}

#[test]
fn known_uid_gives_name_and_home() {
    let mut cfg = blank();
    cfg.uid = Some(1000);
    cfg.home = Some("/srv/app".to_string());
    let dir = listing(vec![user_record("bob", 1000, "/home/bob")], vec![]);
    let mut out = Vec::new();
    assert_eq!(
        resolve_user(&cfg, &dir, &mut out),
        Ok(Identity {
            name: "bob".to_string(),
            id: Some(1000),
            home: Some("/home/bob".to_string()),
            create: false,
        })
    );
    assert_eq!(
        out,
        vec![log("UID set to 1000"), log("User set to 'bob'"), export("PUSER", "bob")]
    );
}

#[test]
fn known_name_gives_uid_and_home() {
    let mut cfg = blank();
    cfg.user = Some("bob".to_string());
    let dir = listing(
        vec![user_record("root", 0, "/root"), user_record("bob", 1000, "/home/bob")],
        vec![],
    );
    let mut out = Vec::new();
    assert_eq!(
        resolve_user(&cfg, &dir, &mut out),
        Ok(Identity {
            name: "bob".to_string(),
            id: Some(1000),
            home: Some("/home/bob".to_string()),
            create: false,
        })
    );
    assert_eq!(out, vec![log("User set to 'bob'"), export("PUSER", "bob")]);
}

#[test]
fn matching_name_and_uid_reuse_the_account() {
    let mut cfg = blank();
    cfg.user = Some("bob".to_string());
    cfg.uid = Some(1000);
    let dir = listing(vec![user_record("bob", 1000, "/home/bob")], vec![]);
    let mut out = Vec::new();
    let identity = resolve_user(&cfg, &dir, &mut out).unwrap();
    assert_eq!(identity.name, "bob");
    assert_eq!(identity.id, Some(1000));
    assert!(!identity.create);
}

#[test]
fn requested_home_is_kept_for_a_new_user() {
    let mut cfg = blank();
    cfg.user = Some("carol".to_string());
    cfg.uid = Some(2000);
    cfg.home = Some("/data/carol".to_string());
    let dir = listing(vec![], vec![]);
    let mut out = Vec::new();
    assert_eq!(
        resolve_user(&cfg, &dir, &mut out),
        Ok(Identity {
            name: "carol".to_string(),
            id: Some(2000),
            home: Some("/data/carol".to_string()),
            create: true,
        })
    );
    assert_eq!(
        out,
        vec![log("UID set to 2000"), log("User set to 'carol'"), export("PUSER", "carol")]
    );
}

#[test]
fn first_listed_record_answers() {
    let mut cfg = blank();
    cfg.uid = Some(7);
    let dir = listing(
        vec![user_record("first", 7, "/first"), user_record("second", 7, "/second")],
        vec![],
    );
    assert_eq!(
        dir.find_by_id(AccountKind::User, 7),
        Ok(Some(user_record("first", 7, "/first")))
    );
    assert_eq!(dir.find_by_id(AccountKind::Group, 7), Ok(None));
    assert_eq!(
        dir.find_by_name(AccountKind::User, &"second".to_string()),
        Ok(Some(user_record("second", 7, "/second")))
    );
    assert_eq!(dir.find_by_name(AccountKind::User, &"third".to_string()), Ok(None));
    let mut out = Vec::new();
    let identity = resolve_user(&cfg, &dir, &mut out).unwrap();
    assert_eq!(identity.name, "first");
    assert_eq!(identity.home, Some("/first".to_string()));
}

#[test]
fn gid_owned_under_another_name_conflicts() {
    let mut cfg = blank();
    cfg.group = Some("staff".to_string());
    cfg.gid = Some(50);
    let dir = listing(vec![], vec![group_record("wheel", 50)]);
    let mut out = Vec::new();
    assert_eq!(
        resolve_group(&cfg, &"alice".to_string(), &dir, &mut out),
        Err(ResolveError::IdentityConflict(Conflict::IdOccupied {
            kind: AccountKind::Group,
            id: 50,
            owner: "wheel".to_string(),
        }))
    );
    assert_eq!(out, vec![log("GID set to 50")]);
}

#[test]
fn group_name_held_under_another_gid_conflicts() {
    let mut cfg = blank();
    cfg.group = Some("staff".to_string());
    cfg.gid = Some(50);
    let dir = listing(vec![], vec![group_record("staff", 51)]);
    let mut out = Vec::new();
    assert_eq!(
        resolve_group(&cfg, &"alice".to_string(), &dir, &mut out),
        Err(ResolveError::IdentityConflict(Conflict::NameTaken {
            kind: AccountKind::Group,
            name: "staff".to_string(),
            id: 51,
        }))
    );
    assert_eq!(out, vec![log("GID set to 50"), log("Group set to 'staff'")]);
}

#[test]
fn unknown_gid_alone_creates_a_group_named_after_the_user() {
    let mut cfg = blank();
    cfg.gid = Some(3000);
    let dir = listing(vec![], vec![]);
    let mut out = Vec::new();
    assert_eq!(
        resolve_group(&cfg, &"alice".to_string(), &dir, &mut out),
        Ok(Identity { name: "alice".to_string(), id: Some(3000), home: None, create: true })
    );
    assert_eq!(out, vec![log("GID set to 3000"), export("PGROUP", "alice")]);
}

#[test]
fn known_gid_gives_the_group_name() {
    let mut cfg = blank();
    cfg.gid = Some(50);
    let dir = listing(vec![], vec![group_record("staff", 50)]);
    let mut out = Vec::new();
    assert_eq!(
        resolve_group(&cfg, &"alice".to_string(), &dir, &mut out),
        Ok(Identity { name: "staff".to_string(), id: Some(50), home: None, create: false })
    );
    assert_eq!(
        out,
        vec![log("GID set to 50"), log("Group set to 'staff'"), export("PGROUP", "staff")]
    );
}

#[test]
fn whole_resolution_of_a_new_user_in_a_known_group() {
    let mut cfg = blank();
    cfg.user = Some("alice".to_string());
    cfg.uid = Some(1000);
    cfg.group = Some("staff".to_string());
    cfg.home = Some("/home/alice".to_string());
    let dir = listing(vec![user_record("root", 0, "/root")], vec![group_record("staff", 50)]);
    let mut out = vec![log("earlier")];
    assert_eq!(
        resolve(&cfg, &dir, &mut out),
        Ok(Resolution {
            user: "alice".to_string(),
            group: "staff".to_string(),
            uid: Some(1000),
            gid: Some(50),
            home: Some("/home/alice".to_string()),
            create_user: true,
            create_group: false,
        })
    );
    assert_eq!(
        out,
        vec![
            log("earlier"),
            log("UID set to 1000"),
            log("User set to 'alice'"),
            export("PUSER", "alice"),
            log("Group set to 'staff'"),
            export("PGROUP", "staff"),
        ]
    );
}

#[test]
fn whole_resolution_keeps_the_user_lines_when_the_group_fails() {
    let mut cfg = blank();
    cfg.user = Some("alice".to_string());
    cfg.group = Some("staff".to_string());
    cfg.gid = Some(50);
    let dir = listing(vec![], vec![group_record("wheel", 50)]);
    let mut out = Vec::new();
    assert_eq!(
        resolve(&cfg, &dir, &mut out),
        Err(ResolveError::IdentityConflict(Conflict::IdOccupied {
            kind: AccountKind::Group,
            id: 50,
            owner: "wheel".to_string(),
        }))
    );
    assert_eq!(
        out,
        vec![log("User set to 'alice'"), export("PUSER", "alice"), log("GID set to 50")]
    );
}

#[test]
fn resolution_of_only_a_uid_names_user_and_group_after_it() {
    let mut cfg = blank();
    cfg.uid = Some(4242);
    let dir = listing(vec![], vec![]);
    let mut out = Vec::new();
    assert_eq!(
        resolve(&cfg, &dir, &mut out),
        Ok(Resolution {
            user: "user4242".to_string(),
            group: "user4242".to_string(),
            uid: Some(4242),
            gid: None,
            home: None,
            create_user: true,
            create_group: false,
        })
    );
}

#[test]
fn resolving_twice_gives_the_same() {
    let mut cfg = blank();
    cfg.user = Some("bob".to_string());
    cfg.gid = Some(50);
    cfg.extra_gids = vec![1, 2];
    let dir = listing(vec![user_record("bob", 1000, "/home/bob")], vec![group_record("staff", 50)]);
    let mut first_out = Vec::new();
    let first = resolve(&cfg, &dir, &mut first_out);
    let mut second_out = Vec::new();
    let second = resolve(&cfg, &dir, &mut second_out);
    assert!(first.is_ok());
    assert_eq!(first, second);
    assert_eq!(first_out, second_out);
    let mut failing = blank();
    failing.user = Some("bob".to_string());
    failing.uid = Some(1);
    let mut third_out = Vec::new();
    let third = resolve(&failing, &dir, &mut third_out);
    let mut fourth_out = Vec::new();
    let fourth = resolve(&failing, &dir, &mut fourth_out);
    assert!(third.is_err());
    assert_eq!(third, fourth);
    assert_eq!(third_out, fourth_out);
}

#[test]
fn exported_names_are_the_resolved_names() {
    let mut cfg = blank();
    cfg.uid = Some(1000);
    cfg.gid = Some(50);
    let dir = listing(vec![user_record("bob", 1000, "/home/bob")], vec![group_record("staff", 50)]);
    let mut out = Vec::new();
    let res = resolve(&cfg, &dir, &mut out).unwrap();
    let mut exported = 0;
    for line in &out {
        if let Line::Export { name, value } = line {
            exported += 1;
            match name.as_str() {
                "PUSER" => assert_eq!(*value, res.user),
                "PGROUP" => assert_eq!(*value, res.group),
                other => panic!("unexpected variable {}", other),
            }
        }
    }
    assert_eq!(exported, 2);
    assert_eq!(res.user, "bob");
    assert_eq!(res.group, "staff");
}

#[test]
fn failed_lookup_ends_the_step() {
    let draft = Draft { name: Some("alice".to_string()), id: Some(5), home: None, create: false };
    assert_eq!(
        draft.adopt_by_id(AccountKind::User, Err(Errno::EIO)),
        Err(ResolveError::LookupFailure(Errno::EIO))
    );
    let draft = Draft { name: Some("alice".to_string()), id: Some(5), home: None, create: false };
    assert_eq!(
        draft.adopt_by_name(AccountKind::Group, Err(Errno::ENOMEM)),
        Err(ResolveError::LookupFailure(Errno::ENOMEM))
    );
}

#[test]
fn a_question_that_is_not_asked_reads_no_answer() {
    let draft = Draft { name: Some("alice".to_string()), id: None, home: None, create: false };
    assert_eq!(
        draft.adopt_by_id(AccountKind::User, Err(Errno::EIO)),
        Ok(Draft { name: Some("alice".to_string()), id: None, home: None, create: false })
    );
    let draft = Draft { name: None, id: Some(9), home: None, create: true };
    assert_eq!(
        draft.adopt_by_name(AccountKind::User, Ok(Some(user_record("x", 1, "/x")))),
        Ok(Draft { name: None, id: Some(9), home: None, create: true })
    );
}

#[test]
fn a_record_without_home_leaves_the_home() {
    let draft = Draft {
        name: None,
        id: Some(9),
        home: Some("/keep".to_string()),
        create: false,
    };
    assert_eq!(
        draft.adopt_by_id(AccountKind::Group, Ok(Some(group_record("nine", 9)))),
        Ok(Draft {
            name: Some("nine".to_string()),
            id: Some(9),
            home: Some("/keep".to_string()),
            create: false,
        })
    );
}

#[test]
fn finish_prefers_the_own_name() {
    let draft = Draft { name: Some("own".to_string()), id: None, home: None, create: true };
    assert_eq!(
        draft.finish(Some("other".to_string())),
        Ok(Identity { name: "own".to_string(), id: None, home: None, create: true })
    );
    let draft = Draft { name: None, id: Some(3), home: None, create: false };
    assert_eq!(
        draft.finish(Some("other".to_string())),
        Ok(Identity { name: "other".to_string(), id: Some(3), home: None, create: false })
    );
    let draft = Draft { name: None, id: Some(3), home: None, create: false };
    assert_eq!(draft.finish(None), Err(ResolveError::MissingIdentity));
}

#[test]
fn resolve_identity_on_a_listing() {
    let dir = listing(vec![], vec![group_record("staff", 50)]);
    let start = Draft { name: Some("staff".to_string()), id: None, home: None, create: false };
    let mut out = Vec::new();
    assert_eq!(
        resolve_identity(AccountKind::Group, start, None, &dir, &mut out),
        Ok(Identity { name: "staff".to_string(), id: Some(50), home: None, create: false })
    );
    assert_eq!(out, vec![log("Group set to 'staff'"), export("PGROUP", "staff")]);
}

#[test]
fn synthesized_names() {
    assert_eq!(synthesize_user_name(0), "user0");
    assert_eq!(synthesize_user_name(1000), "user1000");
    assert_eq!(synthesize_user_name(u32::MAX), "user4294967295");
}

#[test]
fn error_messages() {
    assert_eq!(
        ResolveError::MissingIdentity.message(),
        "Either --user (PUSER) or --uid (PUID) must be set"
    );
    assert_eq!(
        ResolveError::IdentityConflict(Conflict::IdOccupied {
            kind: AccountKind::User,
            id: 1000,
            owner: "bob".to_string(),
        })
        .message(),
        "UID 1000 has been occupied by user 'bob'"
    );
    assert_eq!(
        Conflict::IdOccupied { kind: AccountKind::Group, id: 50, owner: "wheel".to_string() }
            .message(),
        "GID 50 has been occupied by group 'wheel'"
    );
    assert_eq!(
        Conflict::NameTaken { kind: AccountKind::User, name: "alice".to_string(), id: 1001 }
            .message(),
        "user 'alice' already exists with UID 1001"
    );
    assert_eq!(
        Conflict::NameTaken { kind: AccountKind::Group, name: "staff".to_string(), id: 51 }
            .message(),
        "group 'staff' already exists with GID 51"
    );
    assert_eq!(ResolveError::LookupFailure(Errno::EIO).message(), "account lookup failed");
}
