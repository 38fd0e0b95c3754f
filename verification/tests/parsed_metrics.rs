use ztunnel::assoc::AssocMap;
use ztunnel::test_helpers::parsed_metrics::{labels_from_pairs, superset_of, ParsedMetrics};
use ztunnel::test_helpers::scrape::{RawSample, RawScrape, SampleValue};

fn labels(pairs: &[(&str, &str)]) -> AssocMap<String, String> {
    labels_from_pairs(&pairs.iter().map(|(k, v)| (k.to_string(), v.to_string())).collect())
}

const PAGE: &str = "# HELP requests Requests.
# TYPE requests counter
requests_total{code=\"200\",verb=\"get\"} 3
requests_total{code=\"200\",verb=\"put\"} 4
requests_total{code=\"500\",verb=\"get\"} 10
# HELP load Load.
# TYPE load gauge
load 0.5
# HELP latency Latency.
# TYPE latency histogram
latency_bucket{le=\"1\"} 1
other_total 8
";

#[test]
fn samples_are_found_by_their_labels() {
    let page = ParsedMetrics::parse(PAGE);
    assert_eq!(page.query("requests_total", &labels(&[])).unwrap().len(), 3);
    assert_eq!(page.query("requests_total", &labels(&[("code", "200")])).unwrap().len(), 2);
    let one = page.query("requests_total", &labels(&[("code", "200"), ("verb", "put")])).unwrap();
    assert_eq!(one.len(), 1);
    assert_eq!(one[0].metric, "requests_total");
    assert_eq!(one[0].value, SampleValue::Untyped(4));
    assert_eq!(one[0].labels.get(&"verb".to_string()), Some(&"put".to_string()));
    assert!(page.query("requests_total", &labels(&[("code", "404")])).unwrap().is_empty());
    assert!(page.query("requests_total", &labels(&[("host", "a")])).unwrap().is_empty());
}

#[test]
fn only_described_metrics_are_found() {
    let page = ParsedMetrics::parse(PAGE);
    assert!(page.query("other_total", &labels(&[])).is_none());
    assert_eq!(page.query_sum("other_total", &labels(&[])), 0);
    // The description is found under the name without its suffix, the samples under the name.
    assert!(page.query("requests", &labels(&[])).unwrap().is_empty());
    assert!(page.query("latency", &labels(&[])).unwrap().len() == 1);
}

#[test]
fn counters_are_added_up() {
    let page = ParsedMetrics::parse(PAGE);
    assert_eq!(page.query_sum("requests_total", &labels(&[])), 17);
    assert_eq!(page.query_sum("requests_total", &labels(&[("code", "200")])), 7);
    assert_eq!(page.query_sum("requests_total", &labels(&[("verb", "get")])), 13);
    assert!(page.is_summable("requests_total", &labels(&[])));
}

#[test]
fn what_is_no_counter_cannot_be_added_up() {
    let page = ParsedMetrics::parse(PAGE);
    assert!(!page.is_summable("load", &labels(&[])));
    assert!(!page.is_summable("latency", &labels(&[])));
    assert!(page.is_summable("load", &labels(&[("host", "a")])));
    assert!(page.is_summable("missing", &labels(&[])));
}

#[test]
fn a_sum_that_does_not_fit_is_told() {
    let sample = |n: u64| RawSample {
        metric: "m".to_string(),
        labels: vec![],
        value: SampleValue::Counter(n),
    };
    let scrape = |samples| RawScrape { docs: vec!["m".to_string()], samples };
    let page = ParsedMetrics::from_scrape(scrape(vec![sample(u64::MAX), sample(0)]));
    assert!(page.is_summable("m", &labels(&[])));
    assert_eq!(page.query_sum("m", &labels(&[])), u64::MAX);
    let page = ParsedMetrics::from_scrape(scrape(vec![sample(u64::MAX), sample(1)]));
    assert!(!page.is_summable("m", &labels(&[])));
}

#[test]
fn numbers_lose_their_fraction() {
    let page = ParsedMetrics::parse("# HELP n N.\n# TYPE n counter\nn 2.9\nn -3\nn 1e300\n");
    let values: Vec<SampleValue> =
        page.query("n", &labels(&[])).unwrap().iter().map(|s| s.value).collect();
    assert_eq!(
        values,
        vec![
            SampleValue::Counter(2),
            SampleValue::Counter(0),
            SampleValue::Counter(u64::MAX)
        ]
    );
}

#[test]
fn samples_keep_the_order_of_their_lines() {
    let page = ParsedMetrics::parse(
        "# HELP h H.\n# TYPE h histogram\nh_bucket{le=\"1\"} 1\n# HELP n N.\n# TYPE n counter\nn{a=\"1\"} 5\nn{a=\"2\"} 6\nm 7\n",
    );
    let values: Vec<SampleValue> = page.samples.iter().map(|s| s.value).collect();
    assert_eq!(
        values,
        vec![
            SampleValue::Counter(5),
            SampleValue::Counter(6),
            SampleValue::Untyped(7),
            SampleValue::Histogram
        ]
    );
}

#[test]
fn supersets_have_every_label() {
    let base = labels(&[("a", "1"), ("b", "2")]);
    assert!(superset_of(&base, &labels(&[])));
    assert!(superset_of(&base, &labels(&[("b", "2")])));
    assert!(superset_of(&base, &base));
    assert!(!superset_of(&base, &labels(&[("b", "3")])));
    assert!(!superset_of(&base, &labels(&[("c", "2")])));
    assert!(!superset_of(&labels(&[]), &base));
    // Of two labels with one name the later counts.
    assert!(superset_of(&base, &labels(&[("b", "3"), ("b", "2")])));
}
