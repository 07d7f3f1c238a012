use ghpr::config_reader::CommandArgs;
use ghpr::url_builder::GithubPRURLBuilder;

fn bundle(repo: &str, dest: &str, src: &str) -> CommandArgs {
    CommandArgs {
        repo: repo.to_string(),
        dest: dest.to_string(),
        src: src.to_string(),
        title: String::new(),
        body: String::new(),
        labels: String::new(),
        milestone: String::new(),
        assignees: String::new(),
        projects: String::new(),
        template: String::new(),
    }
}

fn build(args: &mut CommandArgs, branch: Option<&str>) -> String {
    let mut builder = GithubPRURLBuilder::new();
    builder
        .build_url(args, branch.map(|name| name.to_string()))
        .clone()
}

#[test]
fn new_builder_holds_the_host() {
    assert_eq!(GithubPRURLBuilder::new().url, "https://github.com/");
}

#[test]
fn minimal_bundle_gives_the_bare_compare_url() {
    let mut args = bundle("owner/repo", "main", "feature-branch");
    let url = build(&mut args, None);
    assert_eq!(
        url,
        "https://github.com/owner/repo/compare/main...feature-branch?quick_pull=1"
    );
    assert!(!url.contains('&'));
}

#[test]
fn title_is_percent_encoded() {
    let mut args = bundle("owner/repo", "main", "feature-branch");
    args.title = "Fix bug".to_string();
    let url = build(&mut args, None);
    assert!(url.ends_with("&title=Fix%20bug"));
    assert_eq!(
        url,
        "https://github.com/owner/repo/compare/main...feature-branch?quick_pull=1&title=Fix%20bug"
    );
}

#[test]
fn labels_are_embedded_as_they_are() {
    let mut args = bundle("owner/repo", "main", "feature-branch");
    args.labels = "bug,urgent".to_string();
    let url = build(&mut args, None);
    assert!(url.contains("&labels=bug,urgent"));
    assert!(url.ends_with("?quick_pull=1&labels=bug,urgent"));
}

#[test]
fn all_fields_come_in_their_fixed_order() {
    let mut args = bundle("owner/repo", "main", "feature-branch");
    args.title = "Fix bug".to_string();
    args.body = "This PR fixes the bug.".to_string();
    args.labels = "bug,urgent".to_string();
    args.milestone = "v1.0".to_string();
    args.assignees = "user1,user2".to_string();
    args.projects = "project1,project2".to_string();
    args.template = "default".to_string();
    let url = build(&mut args, None);
    assert_eq!(
        url,
        "https://github.com/owner/repo/compare/main...feature-branch?quick_pull=1\
         &title=Fix%20bug&body=This%20PR%20fixes%20the%20bug%2E&labels=bug,urgent\
         &milestone=v1.0&assignees=user1,user2&projects=project1,project2&template=default"
    );
}

#[test]
fn only_title_and_body_are_encoded() {
    let mut args = bundle("o w/r", "ma in", "fe at");
    args.title = "a b".to_string();
    args.body = "c d".to_string();
    args.labels = "e f".to_string();
    args.milestone = "g h".to_string();
    args.assignees = "i j".to_string();
    args.projects = "k l".to_string();
    args.template = "m n".to_string();
    let url = build(&mut args, None);
    assert_eq!(
        url,
        "https://github.com/o w/r/compare/ma in...fe at?quick_pull=1\
         &title=a%20b&body=c%20d&labels=e f&milestone=g h&assignees=i j&projects=k l&template=m n"
    );
}

#[test]
fn empty_fields_leave_no_marker() {
    let mut args = bundle("owner/repo", "main", "feature-branch");
    args.body = "text".to_string();
    args.assignees = "user1".to_string();
    let url = build(&mut args, None);
    assert_eq!(
        url,
        "https://github.com/owner/repo/compare/main...feature-branch?quick_pull=1\
         &body=text&assignees=user1"
    );
    for name in ["title", "labels", "milestone", "projects", "template"] {
        assert!(!url.contains(&format!("&{}=", name)));
    }
}

#[test]
fn marker_inside_a_raw_text_is_not_removed() {
    let mut args = bundle("owner/repo", "main", "feature-branch");
    args.labels = "x&title=y".to_string();
    let url = build(&mut args, None);
    assert!(args.title.is_empty());
    assert!(url.ends_with("&labels=x&title=y"));
}

#[test]
fn every_byte_but_letters_and_digits_is_escaped() {
    let mut args = bundle("owner/repo", "main", "feature-branch");
    args.title = "AZaz09 -_.~!*'();:@&=+$,/?#[]%\"<>\\^`{|}\t\n\u{7f}".to_string();
    let url = build(&mut args, None);
    let segment = url.split("&title=").nth(1).unwrap();
    assert_eq!(
        segment,
        "AZaz09%20%2D%5F%2E%7E%21%2A%27%28%29%3B%3A%40%26%3D%2B%24%2C%2F%3F%23%5B%5D%25%22%3C%3E\
         %5C%5E%60%7B%7C%7D%09%0A%7F"
    );
}

#[test]
fn text_beyond_ascii_is_escaped_byte_by_byte() {
    let mut args = bundle("owner/repo", "main", "feature-branch");
    args.title = "caf\u{e9}".to_string();
    args.body = "\u{20ac}\u{1f600}".to_string();
    let url = build(&mut args, None);
    assert!(url.ends_with("&title=caf%C3%A9&body=%E2%82%AC%F0%9F%98%80"));
}

#[test]
fn encoded_segment_decodes_to_the_value() {
    let titles = [
        "Fix bug",
        "100% done & more = better?",
        "na\u{ef}ve \u{2014} r\u{e9}sum\u{e9} \u{4e2d}\u{6587}",
        "%41%zz%",
        "a+b c/d\\e",
    ];
    for title in titles {
        let mut args = bundle("owner/repo", "main", "feature-branch");
        args.title = title.to_string();
        let url = build(&mut args, None);
        let segment = url.split("&title=").nth(1).unwrap();
        assert!(segment
            .chars()
            .all(|c| c == '%' || c.is_ascii_alphanumeric()));
        let decoded = percent_encoding::percent_decode_str(segment)
            .decode_utf8()
            .unwrap();
        assert_eq!(decoded, title);
    }
}

#[test]
fn empty_source_is_filled_from_the_branch() {
    let mut args = bundle("owner/repo", "main", "");
    let url = build(&mut args, Some("develop"));
    assert_eq!(args.src, "develop");
    assert_eq!(
        url,
        "https://github.com/owner/repo/compare/main...develop?quick_pull=1"
    );
}

#[test]
fn empty_source_stays_empty_without_a_branch() {
    let mut args = bundle("owner/repo", "main", "");
    let url = build(&mut args, None);
    assert_eq!(args.src, "");
    assert!(url.contains("compare/main...?quick_pull=1"));
    assert_eq!(url, "https://github.com/owner/repo/compare/main...?quick_pull=1");
}

#[test]
fn given_source_wins_over_the_branch() {
    let mut args = bundle("owner/repo", "main", "feature-branch");
    let url = build(&mut args, Some("develop"));
    assert_eq!(args.src, "feature-branch");
    assert_eq!(
        url,
        "https://github.com/owner/repo/compare/main...feature-branch?quick_pull=1"
    );
}

#[test]
fn other_parameters_are_left_as_they_were() {
    let mut args = bundle("owner/repo", "main", "");
    args.title = "Fix bug".to_string();
    args.labels = "bug".to_string();
    build(&mut args, Some("develop"));
    assert_eq!(args.repo, "owner/repo");
    assert_eq!(args.dest, "main");
    assert_eq!(args.title, "Fix bug");
    assert_eq!(args.labels, "bug");
    assert_eq!(args.body, "");
}

#[test]
fn building_again_gives_the_same_url() {
    let mut args = bundle("owner/repo", "main", "feature-branch");
    args.title = "Fix bug".to_string();
    let mut builder = GithubPRURLBuilder::new();
    let first = builder.build_url(&mut args, None).clone();
    let second = builder.build_url(&mut args, None).clone();
    assert_eq!(
        first,
        "https://github.com/owner/repo/compare/main...feature-branch?quick_pull=1&title=Fix%20bug"
    );
    assert_eq!(second, first);
    assert_eq!(builder.url, first);
}

#[test]
fn url_depends_on_the_bundle_alone() {
    let mut args = bundle("owner/repo", "main", "feature-branch");
    let mut builder = GithubPRURLBuilder {
        url: "https://example.org/left-over".to_string(),
    };
    let url = builder.build_url(&mut args, None).clone();
    assert_eq!(
        url,
        "https://github.com/owner/repo/compare/main...feature-branch?quick_pull=1"
    );
    assert_eq!(builder.url, url);

    let mut other = bundle("owner/other", "release", "hotfix");
    let url = builder.build_url(&mut other, None).clone();
    assert_eq!(
        url,
        "https://github.com/owner/other/compare/release...hotfix?quick_pull=1"
    );
}

#[test]
fn nothing_is_validated() {
    let mut args = bundle("", "", "");
    let url = build(&mut args, None);
    assert_eq!(url, "https://github.com//compare/...?quick_pull=1");
}

#[test]
fn needs_branch_tells_an_empty_source() {
    assert!(bundle("owner/repo", "main", "").needs_branch());
    assert!(!bundle("owner/repo", "main", "feature-branch").needs_branch());
}
