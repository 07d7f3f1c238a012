//! What holds of every URL that the builder assembles.

use crate::config_reader::ParameterBundle;
use crate::encoding::{
    decoding_restores_text, encoded_text_is_plain, is_encoded_char, is_upper_hex, percent_decode,
    percent_encode_text, percent_signs_begin_escapes,
};
use crate::occurrence::{
    closed_is_free, closed_then_free, closed_to, contains, free_then_stopped, mismatch_at,
    occurs_at, stays_after, stays_before, stops, without_first_char_closed,
};
use crate::url_builder::{
    compare_path, compare_target, compare_url, encoded_field, field_marker, optional_fields,
    raw_field,
};
use vstd::prelude::*;
use vstd::utf8::{decode_utf8, encode_utf8};

verus! {

/// Whether `name` is one of the seven optional fields.
pub open spec fn is_optional_name(name: Seq<char>) -> bool {
    ||| name == "title"@
    ||| name == "body"@
    ||| name == "labels"@
    ||| name == "milestone"@
    ||| name == "assignees"@
    ||| name == "projects"@
    ||| name == "template"@
}

/// The value that a bundle holds for an optional field.
pub open spec fn optional_value(bundle: ParameterBundle, name: Seq<char>) -> Seq<char> {
    if name == "title"@ {
        bundle.title
    } else if name == "body"@ {
        bundle.body
    } else if name == "labels"@ {
        bundle.labels
    } else if name == "milestone"@ {
        bundle.milestone
    } else if name == "assignees"@ {
        bundle.assignees
    } else if name == "projects"@ {
        bundle.projects
    } else {
        bundle.template
    }
}

/// Whether none of the texts that the URL embeds as they are holds `pattern`.
pub open spec fn raw_texts_free_of(bundle: ParameterBundle, pattern: Seq<char>) -> bool {
    &&& !contains(bundle.repo, pattern)
    &&& !contains(bundle.dest, pattern)
    &&& !contains(bundle.src, pattern)
    &&& !contains(bundle.labels, pattern)
    &&& !contains(bundle.milestone, pattern)
    &&& !contains(bundle.assignees, pattern)
    &&& !contains(bundle.projects, pattern)
    &&& !contains(bundle.template, pattern)
}

/// The field of a title or body that is not empty is its marker and the
/// encoded value, which holds nothing but `%`, letters and digits and decodes
/// to the value.
pub proof fn encoded_field_escapes_value(name: Seq<char>, value: Seq<char>)
    requires
        value.len() > 0,
    ensures
        encoded_field(name, value) == field_marker(name) + percent_encode_text(value),
        forall|i: int|
            0 <= i < percent_encode_text(value).len() ==> is_encoded_char(
                #[trigger] percent_encode_text(value)[i],
            ),
        forall|i: int|
            0 <= i < percent_encode_text(value).len() && #[trigger] percent_encode_text(value)[i]
                == '%' ==> {
                &&& i + 2 < percent_encode_text(value).len()
                &&& is_upper_hex(percent_encode_text(value)[i + 1])
                &&& is_upper_hex(percent_encode_text(value)[i + 2])
            },
        decode_utf8(percent_decode(percent_encode_text(value))) == value,
{
    encoded_text_is_plain(encode_utf8(value));
    percent_signs_begin_escapes(encode_utf8(value));
    decoding_restores_text(value);
}

/// The value of an optional field is that of the bundle's field of that name.
proof fn optional_value_by_name(bundle: ParameterBundle, name: Seq<char>)
    ensures
        name == "title"@ ==> optional_value(bundle, name) == bundle.title,
        name == "body"@ ==> optional_value(bundle, name) == bundle.body,
        name == "labels"@ ==> optional_value(bundle, name) == bundle.labels,
        name == "milestone"@ ==> optional_value(bundle, name) == bundle.milestone,
        name == "assignees"@ ==> optional_value(bundle, name) == bundle.assignees,
        name == "projects"@ ==> optional_value(bundle, name) == bundle.projects,
        name == "template"@ ==> optional_value(bundle, name) == bundle.template,
{
    reveal_strlit("title");
    reveal_strlit("body");
    reveal_strlit("labels");
    reveal_strlit("milestone");
    reveal_strlit("assignees");
    reveal_strlit("projects");
    reveal_strlit("template");
    assert("title"@.len() == 5 && "body"@.len() == 4 && "labels"@.len() == 6);
    assert("milestone"@[0] != "assignees"@[0]);
    assert("projects"@[0] != "template"@[0]);
}

/// A marker begins with `&` and goes on with lower-case letters and `=`.
proof fn marker_shape(name: Seq<char>)
    requires
        is_optional_name(name),
    ensures
        field_marker(name).len() == name.len() + 2,
        field_marker(name)[0] == '&',
        forall|j: int|
            1 <= j < field_marker(name).len() ==> {
                let c = #[trigger] field_marker(name)[j];
                'a' <= c <= 'z' || c == '='
            },
        stops('&', field_marker(name)),
        stops('/', field_marker(name)),
        stops('.', field_marker(name)),
        stops('?', field_marker(name)),
{
    reveal_strlit("title");
    reveal_strlit("body");
    reveal_strlit("labels");
    reveal_strlit("milestone");
    reveal_strlit("assignees");
    reveal_strlit("projects");
    reveal_strlit("template");
    let marker = field_marker(name);
    assert forall|j: int| 1 <= j < marker.len() implies {
        let c = #[trigger] marker[j];
        'a' <= c <= 'z' || c == '='
    } by {}
}

/// The markers of two different fields differ where both still run.
proof fn markers_differ(field: Seq<char>, name: Seq<char>)
    requires
        is_optional_name(field),
        is_optional_name(name),
        field != name,
    ensures
        mismatch_at(field_marker(field), field_marker(name), 0),
{
    reveal_strlit("title");
    reveal_strlit("body");
    reveal_strlit("labels");
    reveal_strlit("milestone");
    reveal_strlit("assignees");
    reveal_strlit("projects");
    reveal_strlit("template");
    let j: int = if field[0] == name[0] {
        2
    } else {
        1
    };
    assert(field_marker(name)[j] == name[j - 1]);
}

/// No occurrence of the marker of `name` begins in the marker of another field.
proof fn other_marker_closed(field: Seq<char>, name: Seq<char>)
    requires
        is_optional_name(field),
        is_optional_name(name),
        field != name,
    ensures
        closed_to(field_marker(field), field_marker(name)),
{
    let text = field_marker(field);
    let pattern = field_marker(name);
    marker_shape(field);
    marker_shape(name);
    markers_differ(field, name);
    assert forall|at: int| 0 <= at < text.len() implies #[trigger] mismatch_at(
        text,
        pattern,
        at,
    ) by {}
}

/// A field that is embedded as it is, before a rest that is empty or begins
/// with `&`: where neither the value nor the rest holds the marker of `name`,
/// and the field is another or empty, the whole does not hold it.
proof fn raw_field_then_rest(field: Seq<char>, value: Seq<char>, rest: Seq<char>, name: Seq<char>)
    requires
        is_optional_name(field),
        is_optional_name(name),
        field == name ==> value.len() == 0,
        !contains(value, field_marker(name)),
        !contains(rest, field_marker(name)),
        rest.len() > 0 ==> rest[0] == '&',
    ensures
        !contains(raw_field(field, value) + rest, field_marker(name)),
        (raw_field(field, value) + rest).len() > 0 ==> (raw_field(field, value) + rest)[0] == '&',
{
    let pattern = field_marker(name);
    if value.len() > 0 {
        marker_shape(field);
        marker_shape(name);
        other_marker_closed(field, name);
        free_then_stopped(value, rest, pattern);
        closed_then_free(field_marker(field), value + rest, pattern);
        assert(raw_field(field, value) + rest == field_marker(field) + (value + rest));
    }
}

/// The same for a field whose value is percent-encoded: the encoded value
/// never holds a marker.
proof fn encoded_field_then_rest(
    field: Seq<char>,
    value: Seq<char>,
    rest: Seq<char>,
    name: Seq<char>,
)
    requires
        is_optional_name(field),
        is_optional_name(name),
        field == name ==> value.len() == 0,
        !contains(rest, field_marker(name)),
        rest.len() > 0 ==> rest[0] == '&',
    ensures
        !contains(encoded_field(field, value) + rest, field_marker(name)),
        (encoded_field(field, value) + rest).len() > 0 ==> (encoded_field(field, value) + rest)[0]
            == '&',
{
    let pattern = field_marker(name);
    let encoded = percent_encode_text(value);
    if value.len() > 0 {
        marker_shape(field);
        marker_shape(name);
        other_marker_closed(field, name);
        encoded_text_is_plain(encode_utf8(value));
        without_first_char_closed(encoded, pattern);
        closed_is_free(encoded, pattern);
        free_then_stopped(encoded, rest, pattern);
        closed_then_free(field_marker(field), encoded + rest, pattern);
        assert(encoded_field(field, value) + rest == field_marker(field) + (encoded + rest));
    }
}

/// A fixed text without `&`, before a rest that does not hold the marker.
proof fn fixed_then_rest(fixed: Seq<char>, rest: Seq<char>, name: Seq<char>)
    requires
        is_optional_name(name),
        forall|i: int| 0 <= i < fixed.len() ==> #[trigger] fixed[i] != '&',
        !contains(rest, field_marker(name)),
    ensures
        !contains(fixed + rest, field_marker(name)),
{
    marker_shape(name);
    without_first_char_closed(fixed, field_marker(name));
    closed_then_free(fixed, rest, field_marker(name));
}

/// Joining seven texts from the left or from the right gives the same text.
proof fn join_seven(
    a: Seq<char>,
    b: Seq<char>,
    c: Seq<char>,
    d: Seq<char>,
    e: Seq<char>,
    f: Seq<char>,
    g: Seq<char>,
)
    ensures
        a + b + c + d + e + f + g == a + (b + (c + (d + (e + (f + g))))),
{
}

/// An optional field that is empty leaves no trace in the URL: its marker
/// `&name=` stands nowhere in it, unless one of the texts that are embedded
/// as they are holds that marker itself.
pub proof fn empty_field_leaves_no_marker(bundle: ParameterBundle, name: Seq<char>)
    requires
        is_optional_name(name),
        optional_value(bundle, name).len() == 0,
        raw_texts_free_of(bundle, field_marker(name)),
    ensures
        !contains(compare_url(bundle), field_marker(name)),
{
    reveal_strlit("https://github.com/");
    reveal_strlit("/compare/");
    reveal_strlit("...");
    reveal_strlit("?quick_pull=1");
    let pattern = field_marker(name);
    marker_shape(name);
    optional_value_by_name(bundle, name);
    let nothing = Seq::<char>::empty();
    assert(!contains(nothing, pattern)) by {
        assert forall|at: int| !occurs_at(nothing, pattern, at) by {}
    }
    let f1 = encoded_field("title"@, bundle.title);
    let f2 = encoded_field("body"@, bundle.body);
    let f3 = raw_field("labels"@, bundle.labels);
    let f4 = raw_field("milestone"@, bundle.milestone);
    let f5 = raw_field("assignees"@, bundle.assignees);
    let f6 = raw_field("projects"@, bundle.projects);
    let f7 = raw_field("template"@, bundle.template);
    raw_field_then_rest("template"@, bundle.template, nothing, name);
    raw_field_then_rest("projects"@, bundle.projects, f7, name);
    raw_field_then_rest("assignees"@, bundle.assignees, f6 + f7, name);
    raw_field_then_rest("milestone"@, bundle.milestone, f5 + (f6 + f7), name);
    raw_field_then_rest("labels"@, bundle.labels, f4 + (f5 + (f6 + f7)), name);
    encoded_field_then_rest("body"@, bundle.body, f3 + (f4 + (f5 + (f6 + f7))), name);
    encoded_field_then_rest("title"@, bundle.title, f2 + (f3 + (f4 + (f5 + (f6 + f7)))), name);
    join_seven(f1, f2, f3, f4, f5, f6, f7);
    let fields = optional_fields(bundle);
    let host = "https://github.com/"@;
    let compare = "/compare/"@;
    let dots = "..."@;
    let quick = "?quick_pull=1"@;
    fixed_then_rest(quick, fields, name);
    free_then_stopped(bundle.src, quick + fields, pattern);
    fixed_then_rest(dots, bundle.src + (quick + fields), name);
    free_then_stopped(bundle.dest, dots + (bundle.src + (quick + fields)), pattern);
    fixed_then_rest(compare, bundle.dest + (dots + (bundle.src + (quick + fields))), name);
    free_then_stopped(
        bundle.repo,
        compare + (bundle.dest + (dots + (bundle.src + (quick + fields)))),
        pattern,
    );
    join_seven(bundle.repo, compare, bundle.dest, dots, bundle.src, quick, fields);
    assert(compare_target(bundle) == bundle.repo + (compare + (bundle.dest + (dots + (bundle.src
        + (quick + fields))))));
    fixed_then_rest(host, compare_target(bundle), name);
}

/// What the value of a field that is embedded as it is holds, the field holds.
proof fn raw_field_shows_value(name: Seq<char>, value: Seq<char>, pattern: Seq<char>)
    requires
        contains(value, pattern),
    ensures
        contains(raw_field(name, value), pattern),
{
    if value.len() > 0 {
        stays_after(field_marker(name), value, pattern);
    } else {
        assert(raw_field(name, value) == value);
    }
}

/// What one of the texts that are embedded as they are holds, the URL holds:
/// so a marker inside such a text stands in the URL whether or not its own
/// field is empty.
pub proof fn raw_text_shows_in_url(bundle: ParameterBundle, pattern: Seq<char>)
    requires
        !raw_texts_free_of(bundle, pattern),
    ensures
        contains(compare_url(bundle), pattern),
{
    let compare = "/compare/"@;
    let dots = "..."@;
    let quick = "?quick_pull=1"@;
    let path = compare_path(bundle);
    let f1 = encoded_field("title"@, bundle.title);
    let f2 = encoded_field("body"@, bundle.body);
    let f3 = raw_field("labels"@, bundle.labels);
    let f4 = raw_field("milestone"@, bundle.milestone);
    let f5 = raw_field("assignees"@, bundle.assignees);
    let f6 = raw_field("projects"@, bundle.projects);
    let f7 = raw_field("template"@, bundle.template);
    let fields = optional_fields(bundle);
    if contains(bundle.repo, pattern) || contains(bundle.dest, pattern) || contains(
        bundle.src,
        pattern,
    ) {
        if contains(bundle.repo, pattern) {
            stays_before(bundle.repo, compare, pattern);
            stays_before(bundle.repo + compare, bundle.dest, pattern);
        } else if contains(bundle.dest, pattern) {
            stays_after(bundle.repo + compare, bundle.dest, pattern);
        }
        if contains(bundle.repo + compare + bundle.dest, pattern) {
            stays_before(bundle.repo + compare + bundle.dest, dots, pattern);
            stays_before(bundle.repo + compare + bundle.dest + dots, bundle.src, pattern);
        } else {
            stays_after(bundle.repo + compare + bundle.dest + dots, bundle.src, pattern);
        }
        stays_before(bundle.repo + compare + bundle.dest + dots + bundle.src, quick, pattern);
        stays_before(path, fields, pattern);
    } else {
        if contains(bundle.labels, pattern) {
            raw_field_shows_value("labels"@, bundle.labels, pattern);
            stays_after(f1 + f2, f3, pattern);
        }
        if contains(f1 + f2 + f3, pattern) {
            stays_before(f1 + f2 + f3, f4, pattern);
        } else if contains(bundle.milestone, pattern) {
            raw_field_shows_value("milestone"@, bundle.milestone, pattern);
            stays_after(f1 + f2 + f3, f4, pattern);
        }
        if contains(f1 + f2 + f3 + f4, pattern) {
            stays_before(f1 + f2 + f3 + f4, f5, pattern);
        } else if contains(bundle.assignees, pattern) {
            raw_field_shows_value("assignees"@, bundle.assignees, pattern);
            stays_after(f1 + f2 + f3 + f4, f5, pattern);
        }
        if contains(f1 + f2 + f3 + f4 + f5, pattern) {
            stays_before(f1 + f2 + f3 + f4 + f5, f6, pattern);
        } else if contains(bundle.projects, pattern) {
            raw_field_shows_value("projects"@, bundle.projects, pattern);
            stays_after(f1 + f2 + f3 + f4 + f5, f6, pattern);
        }
        if contains(f1 + f2 + f3 + f4 + f5 + f6, pattern) {
            stays_before(f1 + f2 + f3 + f4 + f5 + f6, f7, pattern);
        } else {
            raw_field_shows_value("template"@, bundle.template, pattern);
            stays_after(f1 + f2 + f3 + f4 + f5 + f6, f7, pattern);
        }
        stays_after(path, fields, pattern);
    }
    stays_after("https://github.com/"@, compare_target(bundle), pattern);
}

} // verus!
