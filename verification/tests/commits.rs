use hypcmp::catalog::RevisionCatalog;
use hypcmp::commits::{
    check_correctness_of_commit_ids, check_validity_of_commit_ids, commit_spec, from_commit,
    range_argument, CommitError, CommitSpec, Commits,
};

fn list(items: &[&str]) -> Vec<String> {
    items.iter().map(|s| s.to_string()).collect()
}

fn repository() -> RevisionCatalog {
    RevisionCatalog {
        branches: list(&["main", "remotes/origin/main", "dev"]),
        tags: list(&["v1.0", "v1.1"]),
        abbrev_ids: list(&["abc1234", "def5678"]),
        commit_ids: list(&[
            "abc1234aaaaaaaaaaaaaaaaaaaaaaaaaaaaaaaaa",
            "def5678bbbbbbbbbbbbbbbbbbbbbbbbbbbbbbbbb",
        ]),
        range: list(&["def5678"]),
    }
}

#[test]
fn known_tokens_are_returned_unchanged() {
    let tokens = list(&[
        "dev",
        "v1.1",
        "abc1234",
        "def5678bbbbbbbbbbbbbbbbbbbbbbbbbbbbbbbbb",
        "dev",
    ]);
    assert_eq!(check_correctness_of_commit_ids(&tokens, &repository()), Commits::Valid);
    assert_eq!(from_commit(Some(tokens.clone()), &repository()), Ok(Some(tokens)));
}

#[test]
fn unknown_tokens_are_reported_exactly() {
    let tokens = list(&["nope", "main", "v9", "abc1234", "nope"]);
    assert_eq!(
        check_correctness_of_commit_ids(&tokens, &repository()),
        Commits::SomeInvalid(list(&["nope", "v9", "nope"]))
    );
    assert_eq!(
        from_commit(Some(tokens), &repository()),
        Err(CommitError::SomeInvalid(list(&["nope", "v9", "nope"])))
    );
}

#[test]
fn validity_lists_what_is_not_found() {
    let (ok, missing) = check_validity_of_commit_ids(&list(&["main", "x"]), &repository());
    assert!(!ok);
    assert_eq!(missing, list(&["x"]));
    let (ok, missing) = check_validity_of_commit_ids(&list(&["main", "v1.0"]), &repository());
    assert!(ok);
    assert!(missing.is_empty());
    let (ok, missing) = check_validity_of_commit_ids(&[], &repository());
    assert!(ok);
    assert!(missing.is_empty());
}

#[test]
fn validity_does_not_read_special_tokens() {
    let (ok, missing) = check_validity_of_commit_ids(&list(&["--all"]), &repository());
    assert!(!ok);
    assert_eq!(missing, list(&["--all"]));
}

#[test]
fn empty_list_is_valid() {
    assert_eq!(check_correctness_of_commit_ids(&[], &repository()), Commits::Valid);
    assert_eq!(from_commit(Some(Vec::new()), &repository()), Ok(Some(Vec::new())));
}

#[test]
fn no_tokens_give_no_commits() {
    assert_eq!(from_commit(None, &repository()), Ok(None));
}

#[test]
fn tags_of_a_repository_without_tags() {
    let mut repo = repository();
    repo.tags = list(&[""]);
    assert_eq!(check_correctness_of_commit_ids(&list(&["--tags"]), &repo), Commits::NoTagsFound);
    assert_eq!(from_commit(Some(list(&["--tags"])), &repo), Err(CommitError::NoTagsFound));
    repo.tags = Vec::new();
    assert_eq!(check_correctness_of_commit_ids(&list(&["--tags"]), &repo), Commits::NoTagsFound);
}

#[test]
fn tags_of_a_repository_with_tags() {
    assert_eq!(
        check_correctness_of_commit_ids(&list(&["--tags"]), &repository()),
        Commits::SpecialCaseAll(list(&["v1.0", "v1.1"]))
    );
    assert_eq!(
        from_commit(Some(list(&["x", "--tags"])), &repository()),
        Ok(Some(list(&["v1.0", "v1.1"])))
    );
}

#[test]
fn all_gives_the_abbreviated_ids() {
    assert_eq!(
        check_correctness_of_commit_ids(&list(&["--all"]), &repository()),
        Commits::SpecialCaseAll(list(&["abc1234", "def5678"]))
    );
}

#[test]
fn branches_gives_the_branches() {
    assert_eq!(
        check_correctness_of_commit_ids(&list(&["--branches"]), &repository()),
        Commits::SpecialCaseAll(list(&["main", "remotes/origin/main", "dev"]))
    );
}

#[test]
fn range_gives_the_listed_range() {
    assert_eq!(
        check_correctness_of_commit_ids(&list(&["--since=abc1234"]), &repository()),
        Commits::SpecialCaseAll(list(&["def5678"]))
    );
    assert_eq!(
        check_correctness_of_commit_ids(&list(&["--before=v1.1"]), &repository()),
        Commits::SpecialCaseAll(list(&["def5678"]))
    );
}

#[test]
fn special_tokens_have_their_order() {
    let repo = repository();
    let all = Commits::SpecialCaseAll(list(&["abc1234", "def5678"]));
    let branches = Commits::SpecialCaseAll(list(&["main", "remotes/origin/main", "dev"]));
    let tags = Commits::SpecialCaseAll(list(&["v1.0", "v1.1"]));
    assert_eq!(
        check_correctness_of_commit_ids(&list(&["--since=a", "--tags", "--branches", "--all"]),
            &repo),
        all
    );
    assert_eq!(
        check_correctness_of_commit_ids(&list(&["--since=a", "--tags", "--branches"]), &repo),
        branches
    );
    assert_eq!(check_correctness_of_commit_ids(&list(&["--since=a", "--tags"]), &repo), tags);
}

#[test]
fn special_token_shadows_unknown_tokens() {
    assert_eq!(
        check_correctness_of_commit_ids(&list(&["nope", "--all"]), &repository()),
        Commits::SpecialCaseAll(list(&["abc1234", "def5678"]))
    );
}

#[test]
fn spec_of_tokens() {
    assert_eq!(commit_spec(&list(&["a", "--all"])), CommitSpec::All);
    assert_eq!(commit_spec(&list(&["--branches"])), CommitSpec::Branches);
    assert_eq!(commit_spec(&list(&["--tags"])), CommitSpec::Tags);
    assert_eq!(commit_spec(&list(&["a", "b"])), CommitSpec::Explicit);
    assert_eq!(commit_spec(&[]), CommitSpec::Explicit);
    assert_eq!(commit_spec(&list(&["--al"])), CommitSpec::Explicit);
    assert_eq!(commit_spec(&list(&["--allx"])), CommitSpec::Explicit);
}

#[test]
fn range_bounds_are_read_from_the_tokens() {
    assert_eq!(
        commit_spec(&list(&["--since=abc", "--before=def"])),
        CommitSpec::Range { since: Some("abc".to_string()), before: Some("def".to_string()) }
    );
    assert_eq!(
        commit_spec(&list(&["--before=def"])),
        CommitSpec::Range { since: None, before: Some("def".to_string()) }
    );
    assert_eq!(
        commit_spec(&list(&["x", "--since="])),
        CommitSpec::Range { since: Some(String::new()), before: None }
    );
}

#[test]
fn range_bound_needs_its_equals_sign() {
    assert_eq!(commit_spec(&list(&["--since"])), CommitSpec::Range { since: None, before: None });
    assert_eq!(
        commit_spec(&list(&["--sincerely", "--since=abc"])),
        CommitSpec::Range { since: None, before: None }
    );
    assert_eq!(
        commit_spec(&list(&["--since=a", "--since=b"])),
        CommitSpec::Range { since: Some("a".to_string()), before: None }
    );
}

#[test]
fn range_argument_between_two_bounds() {
    assert_eq!(range_argument(Some("abc"), Some("def")), Some("abc^..def".to_string()));
}

#[test]
fn range_argument_with_one_bound() {
    assert_eq!(range_argument(Some("abc"), None), Some("abc^..HEAD".to_string()));
    assert_eq!(range_argument(None, Some("def")), Some("def^".to_string()));
}

#[test]
fn range_argument_without_bounds() {
    assert_eq!(range_argument(None, None), None);
}

#[test]
fn error_lists_the_tokens_without_quotes() {
    let e = CommitError::SomeInvalid(list(&["nope", "v9"]));
    assert_eq!(e.message(), "Following commits not found: [nope, v9]");
    let e = CommitError::SomeInvalid(list(&["a\"b"]));
    assert_eq!(e.message(), "Following commits not found: [a\\b]");
}

#[test]
fn error_for_missing_tags() {
    assert_eq!(CommitError::NoTagsFound.message(), "No tags found in repository");
}
