use dzsspeedy::bridge::threads::{ordered_hook_threads, HookThreadCandidate};
use dzsspeedy::bridge::target::{add_window_candidate, target_hook_threads, threads_of_process};

#[test]
fn orders_visible_hidden_and_process_threads_for_the_single_hook_path() {
    let candidates = [
        HookThreadCandidate { thread_id: 41, visible: false },
        HookThreadCandidate { thread_id: 42, visible: true },
        HookThreadCandidate { thread_id: 43, visible: true },
    ];

    assert_eq!(ordered_hook_threads(&candidates, &[44, 41, 45]), vec![42, 43, 41, 44, 45]);
}

#[test]
fn falls_back_to_process_threads_when_no_window_thread_exists() {
    assert_eq!(ordered_hook_threads(&[], &[0, 44, 44, 45]), vec![44, 45]);
}

#[test]
fn rejects_zero_thread_ids() {
    let candidates = [HookThreadCandidate { thread_id: 0, visible: true }];

    assert!(ordered_hook_threads(&candidates, &[0]).is_empty());
}

#[test]
fn window_candidates_keep_the_first_window_of_each_thread() {
    let mut candidates = Vec::new();
    add_window_candidate(&mut candidates, 7, 7, 11, false);
    add_window_candidate(&mut candidates, 7, 8, 12, true);
    add_window_candidate(&mut candidates, 7, 7, 11, true);
    add_window_candidate(&mut candidates, 7, 7, 0, true);
    add_window_candidate(&mut candidates, 7, 7, 13, true);
    assert_eq!(
        candidates,
        vec![
            HookThreadCandidate { thread_id: 11, visible: false },
            HookThreadCandidate { thread_id: 13, visible: true },
        ]
    );
}

#[test]
fn process_threads_come_from_the_target_only() {
    let snapshot = [(5, 100), (6, 101), (5, 0), (5, 102)];
    assert_eq!(threads_of_process(&snapshot, 5), vec![100, 102]);
}

#[test]
fn hook_plan_fails_without_any_thread() {
    assert_eq!(
        target_hook_threads(77, &[], &[0]),
        Err("no hook thread candidate is available for pid=77".to_string())
    );
    assert_eq!(target_hook_threads(77, &[], &[9, 9]), Ok(vec![9]));
}

#[test]
fn a_thread_with_visible_and_hidden_windows_ranks_as_visible() {
    let candidates = [
        HookThreadCandidate { thread_id: 52, visible: false },
        HookThreadCandidate { thread_id: 51, visible: false },
        HookThreadCandidate { thread_id: 53, visible: true },
        HookThreadCandidate { thread_id: 51, visible: true },
    ];
    assert_eq!(ordered_hook_threads(&candidates, &[60, 52, 53, 61]), vec![53, 51, 52, 60, 61]);
}
