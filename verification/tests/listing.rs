use ovh::error::OvhError;
use ovh::listing::{collect, ListError};

#[test]
fn collect_returns_every_entity_in_order() {
    let fetched: Vec<(u64, Result<&str, OvhError>)> =
        vec![(3, Ok("three")), (1, Ok("one")), (2, Ok("two"))];
    assert_eq!(collect(fetched), Ok(vec!["three", "one", "two"]));
}

#[test]
fn collect_of_nothing_is_nothing() {
    let fetched: Vec<(u64, Result<u8, OvhError>)> = vec![];
    assert_eq!(collect(fetched), Ok(vec![]));
}

#[test]
fn collect_returns_as_many_entities_as_ids() {
    for n in [1usize, 2, 5, 100] {
        let fetched: Vec<(u64, Result<usize, OvhError>)> =
            (0..n).map(|i| (i as u64 + 10, Ok(i))).collect();
        let list = collect(fetched).unwrap();
        assert_eq!(list.len(), n);
        assert_eq!(list, (0..n).collect::<Vec<usize>>());
    }
}

#[test]
fn collect_names_the_id_that_failed() {
    let fetched: Vec<(u64, Result<&str, OvhError>)> = vec![
        (3, Ok("three")),
        (1, Err(OvhError::ApiError(404, String::from("gone")))),
        (2, Ok("two")),
    ];
    assert_eq!(
        collect(fetched),
        Err(ListError { id: 1, error: OvhError::ApiError(404, String::from("gone")) })
    );
}

#[test]
fn collect_reports_the_first_of_several_failures() {
    let fetched: Vec<(&str, Result<u8, OvhError>)> = vec![
        ("a", Ok(1)),
        ("b", Err(OvhError::NetworkError)),
        ("c", Err(OvhError::ParseError)),
        ("d", Ok(4)),
        ("e", Err(OvhError::ApiError(500, String::new()))),
    ];
    assert_eq!(collect(fetched), Err(ListError { id: "b", error: OvhError::NetworkError }));
    let fetched: Vec<(&str, Result<u8, OvhError>)> =
        vec![("a", Err(OvhError::ParseError)), ("b", Ok(2))];
    assert_eq!(collect(fetched), Err(ListError { id: "a", error: OvhError::ParseError }));
    let fetched: Vec<(&str, Result<u8, OvhError>)> =
        vec![("a", Ok(1)), ("b", Err(OvhError::ParseError))];
    assert_eq!(collect(fetched), Err(ListError { id: "b", error: OvhError::ParseError }));
}
