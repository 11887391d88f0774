use sysconfig::Context;
use sysconfig::FsProbe;
use sysconfig::PathState;
use sysconfig::link::ApplyAction;
use sysconfig::link::ApplyEvent;
use sysconfig::link::CreateEvent;
use sysconfig::link::Link;

fn ctx() -> Context {
    Context::new(
        "/home/u".to_string(),
        vec![".vimrc".to_string(), ".config/git".to_string()],
    )
}

fn probe_fine() -> FsProbe {
    FsProbe::Present {
        is_link: true,
        canonical_home: Ok("/home/u/.dotfiles/home/.vimrc".to_string()),
        canonical_repo: Ok("/home/u/.dotfiles/home/.vimrc".to_string()),
    }
}

#[test]
fn context_fixes_repo_under_home() {
    let c = ctx();
    assert_eq!(c.home, "/home/u");
    assert_eq!(c.repo, "/home/u/.dotfiles/home");
    assert_eq!(c.symlinks.len(), 2);
}

#[test]
fn home_and_repo_paths_join_with_separator() {
    let c = ctx();
    let p = ".vimrc".to_string();
    assert_eq!(c.home_path(&p), "/home/u/.vimrc");
    assert_eq!(c.repo_path(&p), "/home/u/.dotfiles/home/.vimrc");
}

#[test]
fn resolved_link_classifies_fine() {
    let c = ctx();
    assert_eq!(c.state_for_path(probe_fine()), PathState::Fine);
}

#[test]
fn empty_slot_classifies_missing() {
    let c = ctx();
    assert_eq!(
        c.state_for_path(FsProbe::Absent { is_link: false }),
        PathState::Missing
    );
}

#[test]
fn dangling_link_classifies_broken_not_missing() {
    let c = ctx();
    assert_eq!(
        c.state_for_path(FsProbe::Absent { is_link: true }),
        PathState::Broken
    );
}

#[test]
fn link_to_elsewhere_classifies_bad_link() {
    let c = ctx();
    let probe = FsProbe::Present {
        is_link: true,
        canonical_home: Ok("/somewhere/else".to_string()),
        canonical_repo: Ok("/home/u/.dotfiles/home/.vimrc".to_string()),
    };
    assert_eq!(c.state_for_path(probe), PathState::BadLink);
}

#[test]
fn real_file_classifies_conflict() {
    let c = ctx();
    let probe = FsProbe::Present {
        is_link: false,
        canonical_home: Ok("/home/u/.vimrc".to_string()),
        canonical_repo: Ok("/home/u/.dotfiles/home/.vimrc".to_string()),
    };
    assert_eq!(c.state_for_path(probe), PathState::Conflict);
}

#[test]
fn failed_home_resolution_classifies_error() {
    let c = ctx();
    let probe = FsProbe::Present {
        is_link: true,
        canonical_home: Err("permission denied".to_string()),
        canonical_repo: Ok("/home/u/.dotfiles/home/.vimrc".to_string()),
    };
    assert_eq!(
        c.state_for_path(probe),
        PathState::Error("permission denied".to_string())
    );
}

#[test]
fn failed_repo_resolution_classifies_error() {
    let c = ctx();
    let probe = FsProbe::Present {
        is_link: true,
        canonical_home: Ok("/home/u/.vimrc".to_string()),
        canonical_repo: Err("no such file or directory".to_string()),
    };
    assert_eq!(
        c.state_for_path(probe),
        PathState::Error("no such file or directory".to_string())
    );
}

#[test]
fn new_entry_is_classified_and_unapplied() {
    let c = ctx();
    let link = Link::new(".vimrc".to_string(), &c, FsProbe::Absent { is_link: false });
    assert_eq!(link.path, ".vimrc");
    assert_eq!(link.state, PathState::Missing);
    assert_eq!(link.new_state, None);
}

#[test]
fn plan_follows_the_state_table() {
    let c = ctx();
    let entry = |probe: FsProbe| Link::new("p".to_string(), &c, probe);
    assert_eq!(entry(probe_fine()).plan(), ApplyAction::Leave);
    assert_eq!(
        entry(FsProbe::Absent { is_link: false }).plan(),
        ApplyAction::Create
    );
    assert_eq!(
        entry(FsProbe::Absent { is_link: true }).plan(),
        ApplyAction::Recreate
    );
    let bad = FsProbe::Present {
        is_link: true,
        canonical_home: Ok("/a".to_string()),
        canonical_repo: Ok("/b".to_string()),
    };
    assert_eq!(entry(bad).plan(), ApplyAction::Recreate);
    let conflict = FsProbe::Present {
        is_link: false,
        canonical_home: Ok("/a".to_string()),
        canonical_repo: Ok("/b".to_string()),
    };
    assert_eq!(entry(conflict).plan(), ApplyAction::Leave);
    let err = FsProbe::Present {
        is_link: false,
        canonical_home: Err("denied".to_string()),
        canonical_repo: Ok("/b".to_string()),
    };
    assert_eq!(entry(err).plan(), ApplyAction::Leave);
}

#[test]
fn successful_create_records_fine() {
    let c = ctx();
    let mut link = Link::new(".vimrc".to_string(), &c, FsProbe::Absent { is_link: false });
    link.apply(ApplyEvent::Create(CreateEvent::Created));
    assert_eq!(link.state, PathState::Missing);
    assert_eq!(link.new_state, Some(PathState::Fine));
}

#[test]
fn failed_directory_creation_records_error() {
    let c = ctx();
    let mut link = Link::new(".config/git".to_string(), &c, FsProbe::Absent { is_link: false });
    link.apply(ApplyEvent::Create(CreateEvent::DirFailed("read-only filesystem".to_string())));
    assert_eq!(
        link.new_state,
        Some(PathState::Error("read-only filesystem".to_string()))
    );
}

#[test]
fn failed_link_creation_records_error() {
    let c = ctx();
    let mut link = Link::new(".vimrc".to_string(), &c, FsProbe::Absent { is_link: true });
    link.apply(ApplyEvent::Create(CreateEvent::LinkFailed("file exists".to_string())));
    assert_eq!(link.new_state, Some(PathState::Error("file exists".to_string())));
}

#[test]
fn failed_removal_records_error_and_stops() {
    let c = ctx();
    let mut link = Link::new(".vimrc".to_string(), &c, FsProbe::Absent { is_link: true });
    link.apply(ApplyEvent::RemoveFailed("operation not permitted".to_string()));
    assert_eq!(
        link.new_state,
        Some(PathState::Error("operation not permitted".to_string()))
    );
}

#[test]
fn create_link_sets_the_recorded_state() {
    let c = ctx();
    let mut link = Link::new(".vimrc".to_string(), &c, FsProbe::Absent { is_link: false });
    link.create_link(CreateEvent::Created);
    assert_eq!(link.new_state, Some(PathState::Fine));
}

#[test]
fn repaired_entry_settles_on_second_run() {
    let c = ctx();
    let mut link = Link::new(".vimrc".to_string(), &c, FsProbe::Absent { is_link: false });
    assert_eq!(link.plan(), ApplyAction::Create);
    link.apply(ApplyEvent::Create(CreateEvent::Created));
    assert_eq!(link.effective_state(), &PathState::Fine);

    // The second run probes afresh and finds the link in place.
    let second = Link::new(".vimrc".to_string(), &c, probe_fine());
    assert_eq!(second.state, PathState::Fine);
    assert_eq!(second.plan(), ApplyAction::Leave);
    assert_eq!(second.new_state, None);
}

#[test]
fn effective_state_falls_back_to_initial() {
    let c = ctx();
    let link = Link::new(".vimrc".to_string(), &c, FsProbe::Absent { is_link: false });
    assert_eq!(link.effective_state(), &PathState::Missing);
}

#[test]
fn state_labels() {
    assert_eq!(PathState::Fine.label(), "Fine");
    assert_eq!(PathState::Missing.label(), "Missing");
    assert_eq!(PathState::Broken.label(), "Broken");
    assert_eq!(PathState::BadLink.label(), "BadLink");
    assert_eq!(PathState::Conflict.label(), "Conflict");
    assert_eq!(PathState::Error("x".to_string()).label(), "Error");
}

#[test]
fn render_without_attempt() {
    let c = ctx();
    let link = Link::new(".vimrc".to_string(), &c, FsProbe::Absent { is_link: false });
    assert_eq!(link.render(), "Missing .vimrc");
}

#[test]
fn render_with_attempt_shows_arrow() {
    let c = ctx();
    let mut link = Link::new(".vimrc".to_string(), &c, FsProbe::Absent { is_link: true });
    link.apply(ApplyEvent::Create(CreateEvent::Created));
    assert_eq!(link.render(), "Broken -> Fine .vimrc");
}
