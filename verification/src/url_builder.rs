//! Assembly of the compare URL from a resolved parameter bundle.

use crate::config_reader::{text_of, CommandArgs, ParameterBundle};
use crate::encoding::{encode_non_alphanumeric, percent_encode_text};
use vstd::prelude::*;
use vstd::string::StringExecFns;

verus! {

/// What introduces the query field `name`: `&name=`.
pub open spec fn field_marker(name: Seq<char>) -> Seq<char> {
    seq!['&'] + name + seq!['=']
}

/// A query field that is embedded as it is: nothing when the value is empty,
/// `&name=value` otherwise.
pub open spec fn raw_field(name: Seq<char>, value: Seq<char>) -> Seq<char> {
    if value.len() == 0 {
        Seq::empty()
    } else {
        field_marker(name) + value
    }
}

/// A query field whose value is percent-encoded: nothing when the value is
/// empty, `&name=` and the encoded value otherwise.
pub open spec fn encoded_field(name: Seq<char>, value: Seq<char>) -> Seq<char> {
    if value.len() == 0 {
        Seq::empty()
    } else {
        field_marker(name) + percent_encode_text(value)
    }
}

/// The bundle with its source branch filled in from `branch` where it was empty.
pub open spec fn with_source(bundle: ParameterBundle, branch: Option<Seq<char>>) -> ParameterBundle {
    if bundle.src.len() == 0 {
        ParameterBundle {
            src: match branch {
                Some(name) => name,
                None => Seq::empty(),
            },
            ..bundle
        }
    } else {
        bundle
    }
}

/// The path of the comparison and the marker that asks for the pull-request form.
pub open spec fn compare_path(bundle: ParameterBundle) -> Seq<char> {
    bundle.repo + "/compare/"@ + bundle.dest + "..."@ + bundle.src + "?quick_pull=1"@
}

/// The optional fields of a bundle in their fixed order.
pub open spec fn optional_fields(bundle: ParameterBundle) -> Seq<char> {
    encoded_field("title"@, bundle.title)
        + encoded_field("body"@, bundle.body)
        + raw_field("labels"@, bundle.labels)
        + raw_field("milestone"@, bundle.milestone)
        + raw_field("assignees"@, bundle.assignees)
        + raw_field("projects"@, bundle.projects)
        + raw_field("template"@, bundle.template)
}

/// What follows the host in the URL of a bundle.
pub open spec fn compare_target(bundle: ParameterBundle) -> Seq<char> {
    compare_path(bundle) + optional_fields(bundle)
}

/// The complete URL of a bundle.
pub open spec fn compare_url(bundle: ParameterBundle) -> Seq<char> {
    "https://github.com/"@ + compare_target(bundle)
}

/// Appends `&name=value` to `url` unless `value` is empty.
fn push_raw_field(url: &mut String, name: &str, value: &str)
    ensures
        final(url)@ == old(url)@ + raw_field(name@, value@),
{
    if !value.is_empty() {
        proof {
            reveal_strlit("&");
            reveal_strlit("=");
        }
        url.append("&");
        url.append(name);
        url.append("=");
        url.append(value);
    }
}

/// Appends `&name=` and the percent-encoded `value` to `url` unless `value` is empty.
fn push_encoded_field(url: &mut String, name: &str, value: &str)
    ensures
        final(url)@ == old(url)@ + encoded_field(name@, value@),
{
    if !value.is_empty() {
        proof {
            reveal_strlit("&");
            reveal_strlit("=");
        }
        let encoded = encode_non_alphanumeric(value);
        url.append("&");
        url.append(name);
        url.append("=");
        url.append(encoded.as_str());
    }
}

/// Appends the compare path of `args` to `url`.
fn push_compare_path(url: &mut String, args: &CommandArgs)
    ensures
        final(url)@ == old(url)@ + compare_path(args@),
{
    url.append(args.repo.as_str());
    url.append("/compare/");
    url.append(args.dest.as_str());
    url.append("...");
    url.append(args.src.as_str());
    url.append("?quick_pull=1");
}

/// Appends the optional fields of `args` to `url`, in their fixed order.
fn push_optional_fields(url: &mut String, args: &CommandArgs)
    ensures
        final(url)@ == old(url)@ + optional_fields(args@),
{
    push_encoded_field(url, "title", args.title.as_str());
    push_encoded_field(url, "body", args.body.as_str());
    push_raw_field(url, "labels", args.labels.as_str());
    push_raw_field(url, "milestone", args.milestone.as_str());
    push_raw_field(url, "assignees", args.assignees.as_str());
    push_raw_field(url, "projects", args.projects.as_str());
    push_raw_field(url, "template", args.template.as_str());
}

/// Builds the compare URL of a bundle and holds the last one built.
pub struct GithubPRURLBuilder {
    pub url: String,
}

impl View for GithubPRURLBuilder {
    type V = Seq<char>;

    open spec fn view(&self) -> Seq<char> {
        self.url@
    }
}

impl GithubPRURLBuilder {
    /// A builder whose URL holds the host only.
    pub fn new() -> (builder: Self)
        ensures
            builder@ == "https://github.com/"@,
    {
        GithubPRURLBuilder { url: String::from_str("https://github.com/") }
    }

    /// Fills an empty source branch of `args` from `branch`, then builds the
    /// URL of `args` and returns it. What the builder held before is
    /// discarded: the URL depends on the bundle alone.
    pub fn build_url(&mut self, args: &mut CommandArgs, branch: Option<String>) -> (url: &String)
        ensures
            final(args)@ == with_source(old(args)@, text_of(branch)),
            final(self)@ == compare_url(final(args)@),
            url@ == final(self)@,
    {
        if args.src.as_str().is_empty() {
            args.src = match branch {
                Some(name) => name,
                None => String::new(),
            };
        }
        self.url = String::from_str("https://github.com/");
        push_compare_path(&mut self.url, args);
        push_optional_fields(&mut self.url, args);
        &self.url
    }
}

} // verus!
