use notification_service::subject::NatsIOUtils;

#[test]
fn test_base_subject() {
    let project_base_subject = NatsIOUtils::base_subject(vec!["project_id".to_string()], false);
    let collection_base_subject = NatsIOUtils::base_subject(
        vec!["project_id".to_string(), "collection_id".to_string()],
        false,
    );
    let object_base_subject = NatsIOUtils::base_subject(
        vec![
            "project_id".to_string(),
            "collection_id".to_string(),
            "shared_object_id".to_string(),
            "object_id".to_string(),
        ],
        false,
    );
    let object_group_base_subject = NatsIOUtils::base_subject(
        vec![
            "project_id".to_string(),
            "collection_id".to_string(),
            "shared_object_group_id".to_string(),
            "object_group_id".to_string(),
        ],
        true,
    );

    assert_eq!(project_base_subject, "UPDATES.STORAGE._.project_id");
    assert_eq!(
        collection_base_subject,
        "UPDATES.STORAGE._.project_id._.collection_id"
    );
    assert_eq!(
        object_base_subject,
        "UPDATES.STORAGE._.project_id._.collection_id._.OBJECT._.shared_object_id._.object_id"
    );
    assert_eq!(
        object_group_base_subject,
        "UPDATES.STORAGE._.project_id._.collection_id._.OBJECTGROUP._.shared_object_group_id._.object_group_id"
    );
}

#[test]
fn test_query_strings() {
    let project_query = NatsIOUtils::project_query("project_id".to_string(), false);
    let project_query_sub = NatsIOUtils::project_query("project_id".to_string(), true);
    let collection_query = NatsIOUtils::collection_query(
        "project_id".to_string(),
        "collection_id".to_string(),
        false,
    );
    let collection_query_sub = NatsIOUtils::collection_query(
        "project_id".to_string(),
        "collection_id".to_string(),
        true,
    );
    let object_query = NatsIOUtils::object_query(
        "project_id".to_string(),
        "collection_id".to_string(),
        "shared_object_id".to_string(),
        "object_id".to_string(),
        false,
    );
    let object_query_sub = NatsIOUtils::object_query(
        "project_id".to_string(),
        "collection_id".to_string(),
        "shared_object_id".to_string(),
        "object_id".to_string(),
        true,
    );
    let object_group_query = NatsIOUtils::object_group_query(
        "project_id".to_string(),
        "collection_id".to_string(),
        "shared_object_group_id".to_string(),
        "object_group_id".to_string(),
        false,
    );
    let object_group_query_sub = NatsIOUtils::object_group_query(
        "project_id".to_string(),
        "collection_id".to_string(),
        "shared_object_group_id".to_string(),
        "object_group_id".to_string(),
        true,
    );

    assert_eq!(project_query, "UPDATES.STORAGE._.project_id._");
    assert_eq!(project_query_sub, "UPDATES.STORAGE._.project_id.>");
    assert_eq!(
        collection_query,
        "UPDATES.STORAGE._.project_id._.collection_id._"
    );
    assert_eq!(
        collection_query_sub,
        "UPDATES.STORAGE._.project_id._.collection_id.>"
    );
    assert_eq!(
        object_query,
        "UPDATES.STORAGE._.project_id._.collection_id._.OBJECT._.shared_object_id._.object_id._"
    );
    assert_eq!(
        object_query_sub,
        "UPDATES.STORAGE._.project_id._.collection_id._.OBJECT._.shared_object_id._.object_id.>"
    );
    assert_eq!(
        object_group_query,
        "UPDATES.STORAGE._.project_id._.collection_id._.OBJECTGROUP._.shared_object_group_id._.object_group_id._"
    );
    assert_eq!(object_group_query_sub, "UPDATES.STORAGE._.project_id._.collection_id._.OBJECTGROUP._.shared_object_group_id._.object_group_id.>")
}

#[test]
fn test_subject_strings() {
    let project_subject = NatsIOUtils::project_subject("project_id".to_string());
    let collection_subject =
        NatsIOUtils::collection_subject("project_id".to_string(), "collection_id".to_string());
    let object_subject = NatsIOUtils::object_subject(
        "project_id".to_string(),
        "collection_id".to_string(),
        "shared_object_id".to_string(),
        "object_id".to_string(),
    );
    let object_group_subject = NatsIOUtils::object_group_subject(
        "project_id".to_string(),
        "collection_id".to_string(),
        "shared_object_group_id".to_string(),
        "object_group_id".to_string(),
    );

    assert_eq!(project_subject, "UPDATES.STORAGE._.project_id._");
    assert_eq!(
        collection_subject,
        "UPDATES.STORAGE._.project_id._.collection_id._"
    );
    assert_eq!(
        object_subject,
        "UPDATES.STORAGE._.project_id._.collection_id._.OBJECT._.shared_object_id._.object_id._"
    );
    assert_eq!(
        object_group_subject,
        "UPDATES.STORAGE._.project_id._.collection_id._.OBJECTGROUP._.shared_object_group_id._.object_group_id._"
    );
}

#[test]
fn base_subject_of_no_ids_is_the_common_prefix() {
    assert_eq!(NatsIOUtils::base_subject(vec![], false), "UPDATES.STORAGE");
    assert_eq!(NatsIOUtils::base_subject(vec![], true), "UPDATES.STORAGE");
}

#[test]
fn denominator_stands_before_the_third_id_only() {
    let ids = |n: usize| -> Vec<String> { (0..n).map(|i| format!("id{}", i)).collect() };
    assert_eq!(
        NatsIOUtils::base_subject(ids(2), true),
        "UPDATES.STORAGE._.id0._.id1"
    );
    assert_eq!(
        NatsIOUtils::base_subject(ids(3), true),
        "UPDATES.STORAGE._.id0._.id1._.OBJECTGROUP._.id2"
    );
    assert_eq!(
        NatsIOUtils::base_subject(ids(3), false),
        "UPDATES.STORAGE._.id0._.id1._.OBJECT._.id2"
    );
    assert_eq!(
        NatsIOUtils::base_subject(ids(5), false),
        "UPDATES.STORAGE._.id0._.id1._.OBJECT._.id2._.id3._.id4"
    );
}

#[test]
fn query_ends_in_leaf_or_wildcard() {
    for n in 0..6 {
        let ids: Vec<String> = (0..n).map(|i| format!("r{}", i)).collect();
        for flag in [false, true] {
            let base = NatsIOUtils::base_subject(ids.clone(), flag);
            let exact = NatsIOUtils::query(base.clone(), false);
            let recursive = NatsIOUtils::query(base.clone(), true);
            assert!(exact.ends_with("._"));
            assert!(!exact.ends_with(".>"));
            assert!(recursive.ends_with(".>"));
            assert!(!recursive.ends_with("._"));
            assert!(base.starts_with("UPDATES.STORAGE"));
            assert_eq!(exact, format!("{}._", base));
            assert_eq!(recursive, format!("{}.>", base));
        }
    }
}

#[test]
fn upper_level_subjects_hold_no_denominator() {
    let project = NatsIOUtils::project_subject("p".to_string());
    let collection = NatsIOUtils::collection_subject("p".to_string(), "c".to_string());
    for subject in [project, collection] {
        let tokens: Vec<&str> = subject.split("._.").collect();
        assert!(!tokens.contains(&"OBJECT"));
        assert!(!tokens.contains(&"OBJECTGROUP"));
    }
}

#[test]
fn project_query_with_subresources() {
    assert_eq!(
        NatsIOUtils::project_query("p".to_string(), true),
        "UPDATES.STORAGE._.p.>"
    );
}
