//! The batch pipeline: rate limiting, input gathering, resolution
//! ordering, import planning, and the tag-target decisions.

use hydrus_utils::args::gather_urls;
use hydrus_utils::error::Error;
use hydrus_utils::pipeline::finish_step;
use hydrus_utils::pipeline::import_plan;
use hydrus_utils::pipeline::order_resolved;
use hydrus_utils::pipeline::rate_limit_sleep;
use hydrus_utils::pipeline::tag_write_plan;
use hydrus_utils::pipeline::FinishStep;
use hydrus_utils::pipeline::ImportStep;
use hydrus_utils::pipeline::LookupBatch;
use hydrus_utils::pipeline::ResolutionOutcome;
use hydrus_utils::pipeline::ResolvedPost;
use hydrus_utils::pipeline::StoreAction;
use hydrus_utils::pipeline::RATE_CEILING_MS;
use hydrus_utils::pipeline::RATE_WINDOW_MS;

#[test]
fn sleep_fills_the_rest_of_the_window() {
    assert_eq!(rate_limit_sleep(0, RATE_WINDOW_MS, RATE_CEILING_MS), 6000);
    assert_eq!(rate_limit_sleep(2500, RATE_WINDOW_MS, RATE_CEILING_MS), 3500);
    assert_eq!(rate_limit_sleep(5999, RATE_WINDOW_MS, RATE_CEILING_MS), 1);
}

#[test]
fn no_sleep_once_the_window_has_passed() {
    assert_eq!(rate_limit_sleep(6000, RATE_WINDOW_MS, RATE_CEILING_MS), 0);
    assert_eq!(rate_limit_sleep(7000, RATE_WINDOW_MS, RATE_CEILING_MS), 0);
    assert_eq!(rate_limit_sleep(9000, RATE_WINDOW_MS, RATE_CEILING_MS), 0);
}

#[test]
fn sleep_never_exceeds_the_window() {
    for elapsed in [0u64, 1, 3000, 5999, 6000, 6001, 7999, 8000, 100000] {
        assert!(rate_limit_sleep(elapsed, RATE_WINDOW_MS, RATE_CEILING_MS) <= RATE_WINDOW_MS);
    }
}

#[test]
fn lookup_batch_walks_files_in_order() {
    let mut batch = LookupBatch::new(2);
    assert_eq!(batch.next_index(), Some(0));
    let sleep = batch.record(1000);
    assert_eq!(sleep, 5000);
    assert_eq!(batch.next_index(), Some(1));
    let sleep = batch.record(9000);
    assert_eq!(sleep, 0);
    assert_eq!(batch.next_index(), None);
}

#[test]
fn gather_prefers_the_input_file_and_drops_empty_lines() {
    let lines = vec![
        "https://a.example/1".to_string(),
        String::new(),
        "https://a.example/2".to_string(),
    ];
    let urls = gather_urls(Some(lines), Some(vec!["https://ignored.example".to_string()]));
    assert_eq!(
        urls,
        Ok(vec!["https://a.example/1".to_string(), "https://a.example/2".to_string()])
    );
}

#[test]
fn gather_falls_back_to_the_argument_list() {
    let urls = gather_urls(None, Some(vec!["https://a.example/1".to_string()]));
    assert_eq!(urls, Ok(vec!["https://a.example/1".to_string()]));
}

#[test]
fn gather_rejects_a_run_without_input() {
    assert_eq!(gather_urls(None, None), Err(Error::MissingInput));
}

fn ok_outcome(index: usize, url: &str, images: Vec<&str>) -> ResolutionOutcome {
    ResolutionOutcome {
        index,
        post_url: url.to_string(),
        outcome: Ok(images.into_iter().map(|i| i.to_string()).collect()),
    }
}

fn err_outcome(index: usize, url: &str) -> ResolutionOutcome {
    ResolutionOutcome {
        index,
        post_url: url.to_string(),
        outcome: Err(Error::UnexpectedEntryKind),
    }
}

#[test]
fn action_stage_runs_in_input_order() {
    // B resolves slowest: completion order C, A, B. Imports still happen
    // in order A, B, C.
    let results = vec![
        ok_outcome(2, "https://c.example", vec!["https://c.example/m"]),
        ok_outcome(0, "https://a.example", vec!["https://a.example/m"]),
        ok_outcome(1, "https://b.example", vec!["https://b.example/m"]),
    ];
    let ordered = order_resolved(results);
    let posts: Vec<&str> = ordered.iter().map(|p| p.post_url.as_str()).collect();
    assert_eq!(posts, vec!["https://a.example", "https://b.example", "https://c.example"]);
}

#[test]
fn one_failure_leaves_the_other_items_untouched() {
    // One resolver in a batch of three raises a parse error: the other
    // two still reach the import stage, the failing item is absent.
    let results = vec![
        ok_outcome(0, "https://a.example", vec!["https://a.example/m"]),
        err_outcome(1, "https://b.example"),
        ok_outcome(2, "https://c.example", vec!["https://c.example/m"]),
    ];
    let ordered = order_resolved(results);
    assert_eq!(ordered.len(), 2);
    assert_eq!(ordered[0].post_url, "https://a.example");
    assert_eq!(ordered[1].post_url, "https://c.example");
}

#[test]
fn gallery_scenario_plans_one_import_with_back_reference() {
    let post_url = "https://www.reddit.com/r/test/comments/abc123/title/";
    let ordered = order_resolved(vec![ok_outcome(0, post_url, vec!["https://i.redd.it/xyz.jpg"])]);
    let plan = import_plan(&ordered);
    assert_eq!(
        plan,
        vec![ImportStep {
            media_url: "https://i.redd.it/xyz.jpg".to_string(),
            source_url: post_url.to_string(),
        }]
    );
}

#[test]
fn import_plan_keeps_post_and_media_order() {
    let ordered = vec![
        ResolvedPost {
            index: 0,
            post_url: "https://a.example".to_string(),
            images: vec!["https://a.example/1".to_string(), "https://a.example/2".to_string()],
        },
        ResolvedPost {
            index: 1,
            post_url: "https://b.example".to_string(),
            images: vec!["https://b.example/1".to_string()],
        },
    ];
    let plan = import_plan(&ordered);
    let media: Vec<&str> = plan.iter().map(|s| s.media_url.as_str()).collect();
    assert_eq!(media, vec!["https://a.example/1", "https://a.example/2", "https://b.example/1"]);
    assert!(plan[0].source_url == "https://a.example" && plan[1].source_url == "https://a.example");
    assert_eq!(plan[2].source_url, "https://b.example");
}

#[test]
fn tag_writes_include_the_origin_url_in_every_case() {
    let url = "https://www.pixiv.net/en/artworks?id=555".to_string();
    // Zero tags found: no tag write, the origin URL is still associated.
    assert_eq!(
        tag_write_plan(&url, Vec::new()),
        vec![StoreAction::AssociateUrl(url.clone())]
    );
    // Tags found: written first, then the association.
    assert_eq!(
        tag_write_plan(&url, vec!["cat".to_string()]),
        vec![
            StoreAction::AddTags(vec!["cat".to_string()]),
            StoreAction::AssociateUrl(url.clone()),
        ]
    );
}

#[test]
fn finish_tag_is_written_only_after_success() {
    let finish = Some("processed".to_string());
    assert_eq!(
        finish_step(true, &finish),
        FinishStep::WriteFinishTag("processed".to_string())
    );
    assert_eq!(finish_step(true, &None), FinishStep::Nothing);
    assert_eq!(finish_step(false, &finish), FinishStep::LogFailure);
    assert_eq!(finish_step(false, &None), FinishStep::LogFailure);
}
