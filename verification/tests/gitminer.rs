use gitminer::gitminer::{
    Gitminer, Options, WT_CHANGES, WT_DELETED, WT_MODIFIED, WT_NEW, WT_RENAMED, WT_TYPECHANGE,
};
use gitminer::timestamp::Timestamp;

fn options(threads: u32, target: &str) -> Options {
    Options {
        threads,
        target: target.to_string(),
        message: "test".to_string(),
        repo: "/srv/repo".to_string(),
        timestamp: Timestamp::new(1700000000, 0),
    }
}

#[test]
fn author_line_joins_name_and_email() {
    assert_eq!(Gitminer::author_line("A B", "a@b.c"), "A B <a@b.c>");
    assert_eq!(Gitminer::author_line("", ""), " <>");
    assert_eq!(Gitminer::author_line("Zoë Müller", "z@m.de"), "Zoë Müller <z@m.de>");
}

#[test]
fn status_flags_are_those_of_git() {
    assert_eq!(WT_NEW, git2::Status::WT_NEW.bits());
    assert_eq!(WT_MODIFIED, git2::Status::WT_MODIFIED.bits());
    assert_eq!(WT_DELETED, git2::Status::WT_DELETED.bits());
    assert_eq!(WT_RENAMED, git2::Status::WT_RENAMED.bits());
    assert_eq!(WT_TYPECHANGE, git2::Status::WT_TYPECHANGE.bits());
    assert_eq!(WT_CHANGES, WT_NEW | WT_MODIFIED | WT_DELETED | WT_RENAMED | WT_TYPECHANGE);
}

#[test]
fn clean_tree_is_accepted() {
    assert_eq!(Gitminer::ensure_no_unstaged_changes(&[]), Ok(()));
    assert_eq!(Gitminer::ensure_no_unstaged_changes(&[0, 0, 0]), Ok(()));
    let staged = git2::Status::INDEX_NEW | git2::Status::INDEX_MODIFIED | git2::Status::INDEX_DELETED
        | git2::Status::INDEX_RENAMED | git2::Status::INDEX_TYPECHANGE;
    assert_eq!(Gitminer::ensure_no_unstaged_changes(&[staged.bits()]), Ok(()));
    let other = git2::Status::IGNORED | git2::Status::CONFLICTED | git2::Status::WT_UNREADABLE;
    assert_eq!(Gitminer::ensure_no_unstaged_changes(&[other.bits()]), Ok(()));
}

#[test]
fn unstaged_change_is_refused() {
    let message = "Please stash all unstaged changes before running.";
    for flag in [WT_NEW, WT_MODIFIED, WT_DELETED, WT_RENAMED, WT_TYPECHANGE] {
        assert_eq!(Gitminer::ensure_no_unstaged_changes(&[flag]), Err(message));
        assert_eq!(Gitminer::ensure_no_unstaged_changes(&[0, 1, flag | 2, 0]), Err(message));
        assert_eq!(Gitminer::ensure_no_unstaged_changes(&[0, 0, 0, flag]), Err(message));
    }
}

#[test]
fn refusal_agrees_with_intersects() {
    let mut mask = git2::Status::empty();
    mask.insert(git2::Status::WT_NEW);
    mask.insert(git2::Status::WT_MODIFIED);
    mask.insert(git2::Status::WT_DELETED);
    mask.insert(git2::Status::WT_RENAMED);
    mask.insert(git2::Status::WT_TYPECHANGE);
    for bit in 0..16 {
        let status = git2::Status::from_bits_truncate(1u32 << bit);
        let refused = Gitminer::ensure_no_unstaged_changes(&[status.bits()]).is_err();
        assert_eq!(refused, status.intersects(mask));
    }
}

#[test]
fn one_worker_per_thread_with_its_own_index() {
    let miner = Gitminer::new(options(4, ""), "A B", "a@b.c");
    let tree = "4b825dc642cb6eb9a060e54bf8d69288fbee4904";
    let parent = "aaaaaaaaaaaaaaaaaaaaaaaaaaaaaaaaaaaaaaaa";
    let mut team = miner.workers(tree, parent);
    assert_eq!(team.len(), 4);
    for (i, w) in team.iter_mut().enumerate() {
        let found = w.work().unwrap();
        assert_eq!(found.worker_id, i as u32);
        assert_eq!(found.nonce, 0);
        let trailer = format!("\ntest\n{:02}-00000000", i);
        assert!(found.object_content.ends_with(trailer.as_bytes()));
        let head = "tree 4b825dc642cb6eb9a060e54bf8d69288fbee4904\n\
                    parent aaaaaaaaaaaaaaaaaaaaaaaaaaaaaaaaaaaaaaaa\n\
                    author A B <a@b.c> 1700000000 -0000\n\
                    committer A B <a@b.c> 1700000000 -0000\n\n";
        assert!(found.object_content.starts_with(head.as_bytes()));
    }
}

#[test]
fn single_worker_run_returns_the_first_candidate() {
    let miner = Gitminer::new(options(1, ""), "A B", "a@b.c");
    let mut team = miner.workers(
        "4b825dc642cb6eb9a060e54bf8d69288fbee4904",
        "aaaaaaaaaaaaaaaaaaaaaaaaaaaaaaaaaaaaaaaa",
    );
    assert_eq!(team.len(), 1);
    let found = team[0].work().unwrap();
    assert_eq!(found.worker_id, 0);
    assert_eq!(found.nonce, 0);
    assert_eq!(found.digest_hex.len(), 40);
    assert_eq!(found.digest_hex, "2cbf0632f063f9912f541b77651634bf6a56f56a");
}

#[test]
fn no_threads_no_workers() {
    let miner = Gitminer::new(options(0, "00"), "A B", "a@b.c");
    assert!(miner.workers("t", "p").is_empty());
}

#[test]
fn workers_share_the_target() {
    let miner = Gitminer::new(options(2, "00"), "A B", "a@b.c");
    let mut team = miner.workers(
        "4b825dc642cb6eb9a060e54bf8d69288fbee4904",
        "aaaaaaaaaaaaaaaaaaaaaaaaaaaaaaaaaaaaaaaa",
    );
    let nonces: Vec<u32> = team.iter_mut().map(|w| w.work().unwrap().nonce).collect();
    assert_eq!(nonces, vec![570, 5]);
}

#[test]
fn temp_path_is_named_by_the_digest() {
    assert_eq!(
        Gitminer::temp_path("2cbf0632f063f9912f541b77651634bf6a56f56a"),
        "/tmp/2cbf0632f063f9912f541b77651634bf6a56f56a.tmp"
    );
    assert_eq!(Gitminer::temp_path(""), "/tmp/.tmp");
}

#[test]
fn commit_script_stores_and_resets() {
    let miner = Gitminer::new(options(1, ""), "A B", "a@b.c");
    assert_eq!(
        miner.commit_script("/tmp/abc.tmp", "abc"),
        "cd /srv/repo && git hash-object -t commit -w --stdin < /tmp/abc.tmp && git reset --hard abc"
    );
}
