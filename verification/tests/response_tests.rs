//! Header lookup and continuation extraction from a response.

use pagecore::error::Error;
use pagecore::pager::{Page, PagerResult};
use pagecore::response::{Headers, Response};

#[derive(Debug, PartialEq, Eq)]
struct Body {
    items: Vec<i32>,
}

impl Page for Body {
    type Item = i32;

    fn into_items(self) -> Result<Vec<i32>, Error> {
        Ok(self.items)
    }
}

fn response_with(entries: Vec<(&str, &str)>) -> Response<Body> {
    Response::new(
        Headers::from_entries(
            entries
                .into_iter()
                .map(|(k, v)| (k.to_string(), v.to_string()))
                .collect(),
        ),
        Body { items: vec![1] },
    )
}

#[test]
fn header_present_gives_more_with_its_value() {
    let response = response_with(vec![("x-continuation", "tok"), ("x-other", "zzz")]);
    match PagerResult::from_response_header(response, &"x-continuation".to_string()) {
        PagerResult::More { response, next } => {
            assert_eq!("tok", next.as_str());
            assert_eq!(Body { items: vec![1] }, response.into_body());
        }
        PagerResult::Done { .. } => panic!("expected More"),
    }
}

#[test]
fn header_absent_gives_done_with_the_response() {
    let response = response_with(vec![("x-other", "zzz")]);
    match PagerResult::from_response_header(response, &"x-continuation".to_string()) {
        PagerResult::Done { response } => {
            assert_eq!(Body { items: vec![1] }, response.into_body());
        }
        PagerResult::More { .. } => panic!("expected Done"),
    }
}

#[test]
fn header_lookup_returns_first_match_in_order() {
    let headers = Headers::from_entries(vec![
        ("a".to_string(), "1".to_string()),
        ("b".to_string(), "2".to_string()),
        ("a".to_string(), "3".to_string()),
    ]);
    assert_eq!(Some("1".to_string()), headers.get_optional_string(&"a".to_string()));
    assert_eq!(Some("2".to_string()), headers.get_optional_string(&"b".to_string()));
    assert_eq!(None, headers.get_optional_string(&"c".to_string()));
    assert_eq!(None, Headers::new().get_optional_string(&"a".to_string()));
}

#[test]
fn response_extracts_items_through_its_body() {
    let response = response_with(vec![]);
    assert_eq!(vec![1], response.into_items().unwrap());
}
