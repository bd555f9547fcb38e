use baul::error::AppError;
use baul::models::BucketStats;
use baul::services::stats::{ObjectPage, StatsStep};
use baul::services::S3Service;

fn page(sizes: &[i64], more: Option<&str>) -> ObjectPage {
    ObjectPage {
        sizes: sizes.iter().map(|s| Some(*s)).collect(),
        is_truncated: Some(more.is_some()),
        next_continuation_token: more.map(|t| t.to_string()),
    }
}

fn run(name: &str, pages: Vec<ObjectPage>) -> (BucketStats, Vec<Option<String>>) {
    let mut asked = Vec::new();
    let mut pages = pages.into_iter();
    let mut step = S3Service::get_bucket_stats(name);
    loop {
        match step {
            StatsStep::Done(result) => {
                assert!(pages.next().is_none(), "a page was never asked for");
                return (result.expect("statistics"), asked);
            }
            StatsStep::Fetch { progress, continuation_token } => {
                asked.push(continuation_token);
                let page = pages.next().expect("the backend has another page");
                step = progress.absorb(Ok(page)).expect("count and sum fit");
            }
        }
    }
}

#[test]
fn an_empty_bucket_has_no_objects_and_no_bytes() {
    let (stats, asked) = run("empty", vec![page(&[], None)]);
    assert_eq!(
        stats,
        BucketStats { name: "empty".to_string(), object_count: 0, total_size: 0 }
    );
    assert_eq!(asked, vec![None]);
}

#[test]
fn objects_are_counted_across_pages() {
    let (stats, asked) = run(
        "photos",
        vec![page(&[10, 20], Some("t1")), page(&[30], Some("t2")), page(&[40, 50, 60], None)],
    );
    assert_eq!(
        stats,
        BucketStats { name: "photos".to_string(), object_count: 6, total_size: 210 }
    );
    assert_eq!(asked, vec![None, Some("t1".to_string()), Some("t2".to_string())]);
}

#[test]
fn page_boundaries_make_no_difference() {
    let sizes: Vec<i64> = (1..=12).collect();
    let (one_page, _) = run("b", vec![page(&sizes, None)]);
    for cut in 0..=12usize {
        let (two_pages, _) = run("b", vec![page(&sizes[..cut], Some("t")), page(&sizes[cut..], None)]);
        assert_eq!(two_pages, one_page);
    }
    let (three, _) = run(
        "b",
        vec![page(&sizes[..4], Some("a")), page(&sizes[4..5], Some("b")), page(&sizes[5..], None)],
    );
    assert_eq!(three, one_page);
    assert_eq!(one_page.object_count, 12);
    assert_eq!(one_page.total_size, 78);
}

#[test]
fn a_missing_size_counts_as_zero_bytes() {
    let listing = ObjectPage {
        sizes: vec![Some(5), None, Some(7)],
        is_truncated: None,
        next_continuation_token: None,
    };
    let (stats, _) = run("b", vec![listing]);
    assert_eq!(stats.object_count, 3);
    assert_eq!(stats.total_size, 12);
}

#[test]
fn only_a_page_marked_truncated_is_followed_by_another() {
    let unmarked = ObjectPage {
        sizes: vec![Some(1)],
        is_truncated: None,
        next_continuation_token: Some("ignored".to_string()),
    };
    let (stats, asked) = run("b", vec![unmarked]);
    assert_eq!(stats.object_count, 1);
    assert_eq!(asked, vec![None]);
    let denied = ObjectPage {
        sizes: vec![Some(1)],
        is_truncated: Some(false),
        next_continuation_token: Some("ignored".to_string()),
    };
    let (stats, asked) = run("b", vec![denied]);
    assert_eq!(stats.object_count, 1);
    assert_eq!(asked, vec![None]);
}

#[test]
fn a_truncated_page_without_token_is_followed_without_token() {
    let first = ObjectPage {
        sizes: vec![Some(1)],
        is_truncated: Some(true),
        next_continuation_token: None,
    };
    let (stats, asked) = run("b", vec![first, page(&[2], None)]);
    assert_eq!(stats.object_count, 2);
    assert_eq!(stats.total_size, 3);
    assert_eq!(asked, vec![None, None]);
}

#[test]
fn a_negative_size_is_read_as_unsigned() {
    let (stats, _) = run("b", vec![page(&[-1], None)]);
    assert_eq!(stats.object_count, 1);
    assert_eq!(stats.total_size, u64::MAX);
}

#[test]
fn a_sum_that_does_not_fit_is_not_reported() {
    let step = S3Service::get_bucket_stats("b");
    let progress = match step {
        StatsStep::Fetch { progress, .. } => progress,
        StatsStep::Done(_) => panic!("nothing was listed yet"),
    };
    assert!(progress.absorb(Ok(page(&[-1, 1], None))).is_none());
    let again = match S3Service::get_bucket_stats("b") {
        StatsStep::Fetch { progress, .. } => progress,
        StatsStep::Done(_) => panic!("nothing was listed yet"),
    };
    let next = again.absorb(Ok(page(&[i64::MAX, i64::MAX], Some("t")))).expect("fits");
    match next {
        StatsStep::Fetch { progress, continuation_token } => {
            assert_eq!(continuation_token, Some("t".to_string()));
            assert_eq!(progress.object_count(), 2);
            assert_eq!(progress.total_size(), u64::MAX - 1);
            assert!(progress.absorb(Ok(page(&[2], None))).is_none());
        }
        StatsStep::Done(_) => panic!("the page was truncated"),
    }
}

#[test]
fn a_failure_on_a_later_page_discards_what_was_counted() {
    let first = match S3Service::get_bucket_stats("b") {
        StatsStep::Fetch { progress, .. } => progress,
        StatsStep::Done(_) => panic!("nothing was listed yet"),
    };
    let second = match first.absorb(Ok(page(&[1, 2, 3], Some("t")))).expect("fits") {
        StatsStep::Fetch { progress, .. } => progress,
        StatsStep::Done(_) => panic!("the page was truncated"),
    };
    match second.absorb(Err("SlowDown".to_string())).expect("a failure always fits") {
        StatsStep::Done(result) => {
            assert_eq!(result, Err(AppError::BackendError("SlowDown".to_string())))
        }
        StatsStep::Fetch { .. } => panic!("a failed listing went on"),
    }
}
