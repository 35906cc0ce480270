//! What holds of the paths that the fullview templates give: a path that was
//! built from a template reads back as itself.

use vstd::prelude::*;
use crate::decimal::{
    all_digits, decimal_text, is_digit, lemma_decimal_text_digits, lemma_parse_decimal_text,
};
use crate::split::{drop_empty, lemma_run_length, lemma_run_length_is, run_length, split_all};
use crate::template::{
    add_option, chosen_params, fullview_path_of, join, no_params, option_items, parse_options,
    path_segments, plain_options, FullviewFailure, FullviewParams, GetFullviewUrlOptions,
};
use crate::text::{occurs_at, replace_all};

verus! {

/// Whether `c` does not occur in `s`.
pub open spec fn free_of(s: Seq<char>, c: char) -> bool {
    forall|j: int| 0 <= j < s.len() ==> s[j] != c
}

/// Whether no part is empty and `c` occurs in none.
pub open spec fn all_free_of(parts: Seq<Seq<char>>, c: char) -> bool {
    forall|i: int| 0 <= i < parts.len() ==> (#[trigger] parts[i]).len() > 0 && free_of(parts[i], c)
}

/// Whether `params` holds at least one option.
pub open spec fn has_option(params: FullviewParams) -> bool {
    params.width is Some || params.height is Some || params.quality is Some || params.strip
}

/// A text that ends in a separator and a part without separators splits
/// into the parts of the text before, and that part.
pub proof fn lemma_split_appended(a: Seq<char>, b: Seq<char>, sep: char)
    requires
        free_of(b, sep),
    ensures
        split_all(a + seq![sep] + b, sep) == split_all(a, sep).push(b),
    decreases a.len(),
{
    let whole = a + seq![sep] + b;
    let n = run_length(a, sep) as int;
    lemma_run_length(a, sep);
    assert forall|i: int| 0 <= i < n implies whole[i] != sep by {
        assert(whole[i] == a[i]);
    }
    if n >= a.len() {
        assert(whole[n] == sep);
        lemma_run_length_is(whole, sep, n);
        lemma_run_length_is(b, sep, b.len() as int);
        assert(whole.take(n) == a);
        assert(whole.skip(n + 1) == b);
        assert(split_all(b, sep) == seq![b]);
        assert(split_all(a, sep) == seq![a]);
        assert(seq![a] + seq![b] == seq![a].push(b));
    } else {
        assert(whole[n] == a[n]);
        lemma_run_length_is(whole, sep, n);
        assert(whole.take(n) == a.take(n));
        assert(whole.skip(n + 1) == a.skip(n + 1) + seq![sep] + b);
        lemma_split_appended(a.skip(n + 1), b, sep);
        let rest = split_all(a.skip(n + 1), sep);
        assert(seq![a.take(n)] + rest.push(b) == (seq![a.take(n)] + rest).push(b));
    }
}

/// Parts without separators, joined by the separator, split into
/// themselves.
pub proof fn lemma_split_joined(parts: Seq<Seq<char>>, sep: char)
    requires
        parts.len() >= 1,
        forall|i: int| 0 <= i < parts.len() ==> free_of(#[trigger] parts[i], sep),
    ensures
        split_all(join(parts, sep), sep) == parts,
    decreases parts.len(),
{
    if parts.len() == 1 {
        lemma_run_length_is(parts[0], sep, parts[0].len() as int);
        assert(split_all(parts[0], sep) == seq![parts[0]]);
        assert(seq![parts[0]] == parts);
    } else {
        let front = parts.drop_last();
        assert forall|i: int| 0 <= i < front.len() implies free_of(#[trigger] front[i], sep) by {
            assert(front[i] == parts[i]);
        }
        lemma_split_joined(front, sep);
        lemma_split_appended(join(front, sep), parts.last(), sep);
        assert(join(front, sep).push(sep) + parts.last() == join(front, sep) + seq![sep]
            + parts.last());
        assert(front.push(parts.last()) == parts);
    }
}

/// Where no part is empty, none is dropped.
pub proof fn lemma_drop_empty_keeps_all(parts: Seq<Seq<char>>)
    requires
        forall|i: int| 0 <= i < parts.len() ==> (#[trigger] parts[i]).len() > 0,
    ensures
        drop_empty(parts) == parts,
    decreases parts.len(),
{
    if parts.len() > 0 {
        let front = parts.drop_last();
        assert forall|i: int| 0 <= i < front.len() implies (#[trigger] front[i]).len() > 0 by {
            assert(front[i] == parts[i]);
        }
        lemma_drop_empty_keeps_all(front);
        assert(front.push(parts.last()) == parts);
    }
}

/// A character that is in none of the parts, and is not the separator, is
/// not in the joined text; and the joined text of parts that are not empty
/// is not empty.
pub proof fn lemma_join_free_of(parts: Seq<Seq<char>>, sep: char, c: char)
    requires
        all_free_of(parts, c),
        sep != c,
    ensures
        free_of(join(parts, sep), c),
        parts.len() >= 1 ==> join(parts, sep).len() > 0,
    decreases parts.len(),
{
    if parts.len() == 0 {
    } else if parts.len() == 1 {
        assert(parts[0].len() > 0 && free_of(parts[0], c));
    } else {
        let front = parts.drop_last();
        assert forall|i: int| 0 <= i < front.len() implies (#[trigger] front[i]).len() > 0
            && free_of(front[i], c) by {
            assert(front[i] == parts[i]);
        }
        lemma_join_free_of(front, sep, c);
        assert(parts.last() == parts[parts.len() - 1]);
        assert(parts.last().len() > 0 && free_of(parts.last(), c));
    }
}

/// The option that writes a number is not empty and holds neither a comma
/// nor a slash.
pub proof fn lemma_numbered_item_is_plain(key: Seq<char>, n: nat)
    requires
        key.len() > 0,
        free_of(key, ','),
        free_of(key, '/'),
    ensures
        (key + decimal_text(n)).len() > 0,
        free_of(key + decimal_text(n), ','),
        free_of(key + decimal_text(n), '/'),
{
    lemma_decimal_text_digits(n);
    let digits = decimal_text(n);
    let item = key + digits;
    assert forall|j: int| 0 <= j < item.len() implies item[j] != ',' && item[j] != '/' by {
        if j >= key.len() {
            assert(item[j] == digits[j - key.len()]);
            assert(is_digit(digits[j - key.len()]));
        } else {
            assert(item[j] == key[j]);
        }
    }
}

/// The items that write options are not empty and hold neither a comma nor
/// a slash.
pub proof fn lemma_option_items_are_plain(params: FullviewParams)
    ensures
        all_free_of(option_items(params), ','),
        all_free_of(option_items(params), '/'),
        has_option(params) ==> option_items(params).len() >= 1,
{
    reveal_strlit("w_");
    reveal_strlit("h_");
    reveal_strlit("q_");
    reveal_strlit("strp");
    let w: Seq<Seq<char>> = match params.width {
        Some(w) => seq!["w_"@ + decimal_text(w as nat)],
        None => seq![],
    };
    let h: Seq<Seq<char>> = match params.height {
        Some(h) => seq!["h_"@ + decimal_text(h as nat)],
        None => seq![],
    };
    let q: Seq<Seq<char>> = match params.quality {
        Some(q) => seq!["q_"@ + decimal_text(q as nat)],
        None => seq![],
    };
    let s: Seq<Seq<char>> = if params.strip {
        seq!["strp"@]
    } else {
        seq![]
    };
    if params.width is Some {
        lemma_numbered_item_is_plain("w_"@, params.width.unwrap() as nat);
    }
    if params.height is Some {
        lemma_numbered_item_is_plain("h_"@, params.height.unwrap() as nat);
    }
    if params.quality is Some {
        lemma_numbered_item_is_plain("q_"@, params.quality.unwrap() as nat);
    }
    assert(all_free_of(w, ',') && all_free_of(w, '/'));
    assert(all_free_of(h, ',') && all_free_of(h, '/'));
    assert(all_free_of(q, ',') && all_free_of(q, '/'));
    assert(all_free_of(s, ',') && all_free_of(s, '/'));
    let items = option_items(params);
    assert(items == w + h + q + s);
    assert forall|i: int| 0 <= i < items.len() implies (#[trigger] items[i]).len() > 0 && free_of(
        items[i],
        ',',
    ) && free_of(items[i], '/') by {
        if i < w.len() {
            assert(items[i] == w[i]);
        } else if i < w.len() + h.len() {
            assert(items[i] == h[i - w.len()]);
        } else if i < w.len() + h.len() + q.len() {
            assert(items[i] == q[i - w.len() - h.len()]);
        } else {
            assert(items[i] == s[i - w.len() - h.len() - q.len()]);
        }
    }
}

/// Reading one more item adds its option to what the items before gave.
pub proof fn lemma_parse_options_push(items: Seq<Seq<char>>, item: Seq<char>)
    ensures
        parse_options(items.push(item)) == match parse_options(items) {
            Err(e) => Err(e),
            Ok(params) => add_option(params, item),
        },
{
    assert(items.push(item).drop_last() == items);
    assert(items.push(item).last() == item);
}

/// The items that write options read back as those options.
pub proof fn lemma_option_items_read_back(params: FullviewParams)
    ensures
        parse_options(option_items(params)) == Ok::<FullviewParams, FullviewFailure>(params),
{
    reveal_strlit("w_");
    reveal_strlit("h_");
    reveal_strlit("q_");
    reveal_strlit("strp");
    let none: Seq<Seq<char>> = seq![];
    let p0 = no_params();
    let s0 = none;
    assert(parse_options(s0) == Ok::<FullviewParams, FullviewFailure>(p0));
    let p1 = FullviewParams { width: params.width, ..p0 };
    let s1 = s0 + (match params.width {
        Some(w) => seq!["w_"@ + decimal_text(w as nat)],
        None => none,
    });
    match params.width {
        Some(w) => {
            let item = "w_"@ + decimal_text(w as nat);
            assert(s1 == s0.push(item));
            lemma_parse_options_push(s0, item);
            lemma_parse_decimal_text(w as nat, u32::MAX as nat);
            assert(item[0] == 'w');
            assert(item.subrange(0, 2) == "w_"@);
            assert(item.skip(2) == decimal_text(w as nat));
            assert(add_option(p0, item) == Ok::<FullviewParams, FullviewFailure>(p1));
        },
        None => {
            assert(s1 == s0);
        },
    }
    assert(parse_options(s1) == Ok::<FullviewParams, FullviewFailure>(p1));
    let p2 = FullviewParams { height: params.height, ..p1 };
    let s2 = s1 + (match params.height {
        Some(h) => seq!["h_"@ + decimal_text(h as nat)],
        None => none,
    });
    match params.height {
        Some(h) => {
            let item = "h_"@ + decimal_text(h as nat);
            assert(s2 == s1.push(item));
            lemma_parse_options_push(s1, item);
            lemma_parse_decimal_text(h as nat, u32::MAX as nat);
            assert(item[0] == 'h');
            assert(item.subrange(0, 2) == "h_"@);
            assert(item.subrange(0, 2)[0] == 'h');
            assert(item.skip(2) == decimal_text(h as nat));
            assert(add_option(p1, item) == Ok::<FullviewParams, FullviewFailure>(p2));
        },
        None => {
            assert(s2 == s1);
        },
    }
    assert(parse_options(s2) == Ok::<FullviewParams, FullviewFailure>(p2));
    let p3 = FullviewParams { quality: params.quality, ..p2 };
    let s3 = s2 + (match params.quality {
        Some(q) => seq!["q_"@ + decimal_text(q as nat)],
        None => none,
    });
    match params.quality {
        Some(q) => {
            let item = "q_"@ + decimal_text(q as nat);
            assert(s3 == s2.push(item));
            lemma_parse_options_push(s2, item);
            lemma_parse_decimal_text(q as nat, u8::MAX as nat);
            assert(item[0] == 'q');
            assert(item.subrange(0, 2) == "q_"@);
            assert(item.subrange(0, 2)[0] == 'q');
            assert(item.skip(2) == decimal_text(q as nat));
            assert(add_option(p2, item) == Ok::<FullviewParams, FullviewFailure>(p3));
        },
        None => {
            assert(s3 == s2);
        },
    }
    assert(parse_options(s3) == Ok::<FullviewParams, FullviewFailure>(p3));
    let s4 = s3 + (if params.strip {
        seq!["strp"@]
    } else {
        none
    });
    if params.strip {
        assert(s4 == s3.push("strp"@));
        lemma_parse_options_push(s3, "strp"@);
        assert(add_option(p3, "strp"@) == Ok::<FullviewParams, FullviewFailure>(params));
    } else {
        assert(s4 == s3);
        assert(p3 == params);
    }
    assert(s4 == option_items(params));
}

/// Options that were written as a list separated by commas read back as
/// themselves.
pub proof fn lemma_written_options_read_back(params: FullviewParams)
    requires
        has_option(params),
    ensures
        parse_options(split_all(join(option_items(params), ','), ',')) == Ok::<
            FullviewParams,
            FullviewFailure,
        >(params),
{
    lemma_option_items_are_plain(params);
    lemma_split_joined(option_items(params), ',');
    lemma_option_items_read_back(params);
}

/// Options that were read from at least one item hold at least one option.
pub proof fn lemma_read_options_hold_one(items: Seq<Seq<char>>, params: FullviewParams)
    requires
        items.len() >= 1,
        parse_options(items) == Ok::<FullviewParams, FullviewFailure>(params),
    ensures
        has_option(params),
{
}

/// A fullview path reads back as itself: where a template gives a path for
/// a pretty name and no choice of the caller, that path, joined by slashes
/// and taken as a template, gives the same path again.
///
/// This is stated for paths whose file name is not empty, holds no slash and
/// no placeholder: a pretty name can break each of the three.
pub proof fn lemma_fullview_path_is_stable(
    content: Seq<char>,
    name: Seq<char>,
    path: Seq<Seq<char>>,
)
    requires
        fullview_path_of(content, Some(name), plain_options()) == Ok::<
            Seq<Seq<char>>,
            FullviewFailure,
        >(path),
        path[3].len() > 0,
        free_of(path[3], '/'),
        replace_all(path[3], "<prettyName>"@, name) == path[3],
    ensures
        fullview_path_of(join(path, '/'), Some(name), plain_options()) == Ok::<
            Seq<Seq<char>>,
            FullviewFailure,
        >(path),
{
    reveal_strlit("v1");
    reveal_strlit("fit");
    reveal_strlit("fill");
    let parts = path_segments(content);
    let items = split_all(parts[2], ',');
    let params = parse_options(items)->Ok_0;
    assert(path.len() == 4);
    assert(chosen_params(params, plain_options()) == params);
    assert(path[2] == join(option_items(params), ','));
    lemma_run_length(parts[2], ',');
    assert(items.len() >= 1);
    lemma_read_options_hold_one(items, params);
    lemma_option_items_are_plain(params);
    lemma_join_free_of(option_items(params), ',', '/');
    assert(path[0] == "v1"@);
    assert(path[1] == "fit"@ || path[1] == "fill"@);
    assert forall|i: int| 0 <= i < path.len() implies (#[trigger] path[i]).len() > 0 && free_of(
        path[i],
        '/',
    ) by {
        if i == 0 {
        } else if i == 1 {
        } else if i == 2 {
        } else {
            assert(i == 3);
        }
    }
    lemma_split_joined(path, '/');
    lemma_drop_empty_keeps_all(path);
    assert(path_segments(join(path, '/')) == path);
    lemma_written_options_read_back(params);
}

/// A template whose second part is neither `fit` nor `fill` is refused, and
/// the failure names that part and what was expected in its place.
pub proof fn lemma_unknown_mode_is_refused(
    content: Seq<char>,
    pretty_name: Option<Seq<char>>,
    options: GetFullviewUrlOptions,
)
    requires
        path_segments(content).len() >= 2,
        path_segments(content)[0] == "v1"@,
        path_segments(content)[1] != "fit"@,
        path_segments(content)[1] != "fill"@,
    ensures
        fullview_path_of(content, pretty_name, options) == Err::<Seq<Seq<char>>, FullviewFailure>(
            FullviewFailure::InvalidPathPart {
                expected: "fit|fill"@,
                actual: path_segments(content)[1],
            },
        ),
{
}

} // verus!
