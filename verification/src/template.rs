//! The path template of a fullview rendition: what it holds, how the
//! caller's choices change it, and the path that comes of it.

use vstd::prelude::*;
use crate::decimal::{decimal_text, format_u64, parse_bounded, parse_text};
use crate::split::{drop_empty, split_all, split_chars, texts, without_empty};
use crate::text::{
    append_chars, chars_eq, ends_with, from_chars, matches_at, occurs_at, replace_all,
    replace_chars, text_of, to_chars,
};

verus! {

/// The sizing options that a path template holds.
#[derive(Clone, Copy, Debug, PartialEq, Eq)]
pub struct FullviewParams {
    /// The width in pixels, from `w_<number>`.
    pub width: Option<u32>,
    /// The height in pixels, from `h_<number>`.
    pub height: Option<u32>,
    /// The quality, from `q_<number>`.
    pub quality: Option<u8>,
    /// Whether metadata is stripped, from `strp`.
    pub strip: bool,
}

/// What the caller asks of a fullview URL.
#[derive(Clone, Copy, Debug, PartialEq, Eq)]
pub struct GetFullviewUrlOptions {
    /// The quality to ask for, in place of the template's.
    pub quality: Option<u8>,
    /// Whether to ask for stripped metadata, in place of the template's choice.
    pub strip: Option<bool>,
    /// Whether to ask for a PNG in place of the template's JPEG.
    pub png: bool,
}

/// The caller's choices that change nothing: the URL is built as the
/// template writes it.
pub open spec fn plain_options() -> GetFullviewUrlOptions {
    GetFullviewUrlOptions { quality: None, strip: None, png: false }
}

impl GetFullviewUrlOptions {
    /// The choices that change nothing.
    pub fn new() -> (options: Self)
        ensures
            options == plain_options(),
    {
        GetFullviewUrlOptions { quality: None, strip: None, png: false }
    }
}

/// Why no fullview URL could be built.
#[derive(Clone, Debug, PartialEq, Eq)]
pub enum GetFullviewUrlError {
    /// The media has no base URI.
    MissingBaseUri,
    /// The base URI is not the text of a URL that takes path segments and a
    /// query, or a text is longer than the URL routines accept.
    InvalidBaseUri,
    /// The media has no fullview rendition.
    MissingMediaType,
    /// The path template ends before the named part.
    MissingPathPart {
        /// What the part should have been.
        expected: &'static str,
    },
    /// A part of the path template is not what it should be.
    InvalidPathPart {
        /// What the part should have been.
        expected: &'static str,
        /// What the part is.
        actual: String,
    },
    /// The path template goes on after its file name.
    UnexpectedPathPart {
        /// The first part after the file name.
        actual: String,
    },
    /// The media has no pretty name to put into the file name.
    MissingPrettyName,
    /// The template gives one option twice.
    DuplicateOption {
        /// The second occurrence.
        option: String,
    },
    /// The template holds an option that is not known or has no valid number.
    InvalidOption {
        /// The option.
        option: String,
    },
    /// A PNG was asked for, but the file name does not end in `.jpg`.
    NotJpg,
}

/// A `GetFullviewUrlError` with its texts as sequences.
pub enum FullviewFailure {
    MissingBaseUri,
    InvalidBaseUri,
    MissingMediaType,
    MissingPathPart { expected: Seq<char> },
    InvalidPathPart { expected: Seq<char>, actual: Seq<char> },
    UnexpectedPathPart { actual: Seq<char> },
    MissingPrettyName,
    DuplicateOption { option: Seq<char> },
    InvalidOption { option: Seq<char> },
    NotJpg,
}

impl View for GetFullviewUrlError {
    type V = FullviewFailure;

    open spec fn view(&self) -> FullviewFailure {
        match *self {
            GetFullviewUrlError::MissingBaseUri => FullviewFailure::MissingBaseUri,
            GetFullviewUrlError::InvalidBaseUri => FullviewFailure::InvalidBaseUri,
            GetFullviewUrlError::MissingMediaType => FullviewFailure::MissingMediaType,
            GetFullviewUrlError::MissingPathPart { expected } => FullviewFailure::MissingPathPart {
                expected: expected@,
            },
            GetFullviewUrlError::InvalidPathPart {
                expected,
                actual,
            } => FullviewFailure::InvalidPathPart { expected: expected@, actual: actual@ },
            GetFullviewUrlError::UnexpectedPathPart {
                actual,
            } => FullviewFailure::UnexpectedPathPart { actual: actual@ },
            GetFullviewUrlError::MissingPrettyName => FullviewFailure::MissingPrettyName,
            GetFullviewUrlError::DuplicateOption { option } => FullviewFailure::DuplicateOption {
                option: option@,
            },
            GetFullviewUrlError::InvalidOption { option } => FullviewFailure::InvalidOption {
                option: option@,
            },
            GetFullviewUrlError::NotJpg => FullviewFailure::NotJpg,
        }
    }
}

/// The parts of a path between its slashes, empty ones left out.
pub open spec fn path_segments(path: Seq<char>) -> Seq<Seq<char>> {
    drop_empty(split_all(path, '/'))
}

/// No option given.
pub open spec fn no_params() -> FullviewParams {
    FullviewParams { width: None, height: None, quality: None, strip: false }
}

/// The number of a `key_<number>` option: what follows `key`, read as a
/// decimal number up to `max`.
pub open spec fn option_number(item: Seq<char>, key: Seq<char>, max: nat) -> Option<nat> {
    parse_text(item.skip(key.len() as int), max)
}

/// `params` with the option `item` added. An option that was given before is
/// a duplicate; one that is neither `strp` nor `w_`, `h_` or `q_` with a
/// number in range is invalid.
pub open spec fn add_option(params: FullviewParams, item: Seq<char>) -> Result<
    FullviewParams,
    FullviewFailure,
> {
    if item == "strp"@ {
        if params.strip {
            Err(FullviewFailure::DuplicateOption { option: item })
        } else {
            Ok(FullviewParams { strip: true, ..params })
        }
    } else if occurs_at(item, 0, "w_"@) {
        match option_number(item, "w_"@, u32::MAX as nat) {
            None => Err(FullviewFailure::InvalidOption { option: item }),
            Some(n) => if params.width is Some {
                Err(FullviewFailure::DuplicateOption { option: item })
            } else {
                Ok(FullviewParams { width: Some(n as u32), ..params })
            },
        }
    } else if occurs_at(item, 0, "h_"@) {
        match option_number(item, "h_"@, u32::MAX as nat) {
            None => Err(FullviewFailure::InvalidOption { option: item }),
            Some(n) => if params.height is Some {
                Err(FullviewFailure::DuplicateOption { option: item })
            } else {
                Ok(FullviewParams { height: Some(n as u32), ..params })
            },
        }
    } else if occurs_at(item, 0, "q_"@) {
        match option_number(item, "q_"@, u8::MAX as nat) {
            None => Err(FullviewFailure::InvalidOption { option: item }),
            Some(n) => if params.quality is Some {
                Err(FullviewFailure::DuplicateOption { option: item })
            } else {
                Ok(FullviewParams { quality: Some(n as u8), ..params })
            },
        }
    } else {
        Err(FullviewFailure::InvalidOption { option: item })
    }
}

/// The options that the items give, read from left to right. The first item
/// that cannot be added decides the failure.
pub open spec fn parse_options(items: Seq<Seq<char>>) -> Result<FullviewParams, FullviewFailure>
    decreases items.len(),
{
    if items.len() == 0 {
        Ok(no_params())
    } else {
        match parse_options(items.drop_last()) {
            Err(e) => Err(e),
            Ok(params) => add_option(params, items.last()),
        }
    }
}

/// A failure among the first items is the failure of the whole list.
pub proof fn lemma_parse_options_failure(items: Seq<Seq<char>>, k: int)
    requires
        0 <= k <= items.len(),
        parse_options(items.take(k)) is Err,
    ensures
        parse_options(items) == parse_options(items.take(k)),
    decreases items.len(),
{
    if k == items.len() {
        assert(items.take(k) == items);
    } else {
        assert(items.drop_last().take(k) == items.take(k));
        lemma_parse_options_failure(items.drop_last(), k);
    }
}

/// The options that go into the URL: the template's, with the quality and
/// the stripping that the caller chose. Width and height stay as they are.
pub open spec fn chosen_params(
    params: FullviewParams,
    options: GetFullviewUrlOptions,
) -> FullviewParams {
    FullviewParams {
        width: params.width,
        height: params.height,
        quality: if options.quality is Some {
            options.quality
        } else {
            params.quality
        },
        strip: match options.strip {
            Some(strip) => strip,
            None => params.strip,
        },
    }
}

/// The items that write `params`, in the order width, height, quality,
/// stripping.
pub open spec fn option_items(params: FullviewParams) -> Seq<Seq<char>> {
    (match params.width {
        Some(w) => seq!["w_"@ + decimal_text(w as nat)],
        None => seq![],
    }) + (match params.height {
        Some(h) => seq!["h_"@ + decimal_text(h as nat)],
        None => seq![],
    }) + (match params.quality {
        Some(q) => seq!["q_"@ + decimal_text(q as nat)],
        None => seq![],
    }) + (if params.strip {
        seq!["strp"@]
    } else {
        seq![]
    })
}

/// The items with `sep` between each two of them.
pub open spec fn join(items: Seq<Seq<char>>, sep: char) -> Seq<char>
    decreases items.len(),
{
    if items.len() == 0 {
        seq![]
    } else if items.len() == 1 {
        items[0]
    } else {
        join(items.drop_last(), sep).push(sep) + items.last()
    }
}

/// The file name for a PNG: `.png` in place of a final `.jpg`.
pub open spec fn png_name(file: Seq<char>) -> Result<Seq<char>, FullviewFailure> {
    if ends_with(file, ".jpg"@) {
        Ok(file.take(file.len() - ".jpg"@.len()) + ".png"@)
    } else {
        Err(FullviewFailure::NotJpg)
    }
}

/// The path segments that the template `content` gives for the pretty name
/// and the caller's choices, or the first failure on the way.
///
/// The template is read as four parts between slashes: `v1`; `fit` or
/// `fill`; the options, separated by commas; the file name, in which the
/// pretty name stands for each `<prettyName>`. Anything after the file name
/// is refused.
pub open spec fn fullview_path_of(
    content: Seq<char>,
    pretty_name: Option<Seq<char>>,
    options: GetFullviewUrlOptions,
) -> Result<Seq<Seq<char>>, FullviewFailure> {
    let parts = path_segments(content);
    if parts.len() < 1 {
        Err(FullviewFailure::MissingPathPart { expected: "v1"@ })
    } else if parts[0] != "v1"@ {
        Err(FullviewFailure::InvalidPathPart { expected: "v1"@, actual: parts[0] })
    } else if parts.len() < 2 {
        Err(FullviewFailure::MissingPathPart { expected: "fit|fill"@ })
    } else if parts[1] != "fit"@ && parts[1] != "fill"@ {
        Err(FullviewFailure::InvalidPathPart { expected: "fit|fill"@, actual: parts[1] })
    } else if parts.len() < 3 {
        Err(FullviewFailure::MissingPathPart { expected: "options"@ })
    } else {
        match parse_options(split_all(parts[2], ',')) {
            Err(e) => Err(e),
            Ok(params) => if parts.len() < 4 {
                Err(FullviewFailure::MissingPathPart { expected: "file name"@ })
            } else {
                match pretty_name {
                    None => Err(FullviewFailure::MissingPrettyName),
                    Some(name) => {
                        let named = replace_all(parts[3], "<prettyName>"@, name);
                        let file = if options.png {
                            png_name(named)
                        } else {
                            Ok(named)
                        };
                        match file {
                            Err(e) => Err(e),
                            Ok(file) => if parts.len() > 4 {
                                Err(FullviewFailure::UnexpectedPathPart { actual: parts[4] })
                            } else {
                                Ok(
                                    seq![
                                        parts[0],
                                        parts[1],
                                        join(option_items(chosen_params(params, options)), ','),
                                        file,
                                    ],
                                )
                            },
                        }
                    },
                }
            },
        }
    }
}

/// The result of building a path, with its texts as sequences.
pub open spec fn path_view(path: Result<Vec<String>, GetFullviewUrlError>) -> Result<
    Seq<Seq<char>>,
    FullviewFailure,
> {
    match path {
        Ok(parts) => Ok(Seq::new(parts@.len(), |i: int| parts@[i]@)),
        Err(e) => Err(e@),
    }
}

/// The result of reading options, with its texts as sequences.
pub open spec fn params_view(params: Result<FullviewParams, GetFullviewUrlError>) -> Result<
    FullviewParams,
    FullviewFailure,
> {
    match params {
        Ok(params) => Ok(params),
        Err(e) => Err(e@),
    }
}

/// `v` from position `from` on.
fn tail(v: &Vec<char>, from: usize) -> (rest: Vec<char>)
    requires
        from <= v.len(),
    ensures
        rest@ == v@.skip(from as int),
{
    let mut rest: Vec<char> = Vec::new();
    let mut i: usize = from;
    while i < v.len()
        invariant
            from <= i <= v.len(),
            rest@ == v@.subrange(from as int, i as int),
        decreases v.len() - i,
    {
        rest.push(v[i]);
        assert(v@.subrange(from as int, i + 1) == v@.subrange(from as int, i as int).push(
            v@[i as int],
        ));
        i += 1;
    }
    assert(v@.subrange(from as int, v.len() as int) == v@.skip(from as int));
    rest
}

/// The number of the option `item` if it begins with `key`.
fn number_after(item: &Vec<char>, key: &str, max: u64) -> (number: Option<Option<u64>>)
    ensures
        number.is_some() == occurs_at(item@, 0, key@),
        number.is_some() ==> match number.unwrap() {
            Some(n) => option_number(item@, key@, max as nat) == Some(n as nat),
            None => option_number(item@, key@, max as nat) is None,
        },
{
    let key_chars = to_chars(key);
    if matches_at(item, 0, &key_chars) {
        let digits = tail(item, key_chars.len());
        Some(parse_bounded(&digits, max))
    } else {
        None
    }
}

/// Adds the option `item` to `params`.
pub fn with_option(params: FullviewParams, item: &Vec<char>) -> (added: Result<
    FullviewParams,
    GetFullviewUrlError,
>)
    ensures
        params_view(added) == add_option(params, item@),
{
    let strp = to_chars("strp");
    if chars_eq(item, &strp) {
        if params.strip {
            return Err(GetFullviewUrlError::DuplicateOption { option: from_chars(item) });
        }
        return Ok(
            FullviewParams {
                width: params.width,
                height: params.height,
                quality: params.quality,
                strip: true,
            },
        );
    }
    match number_after(item, "w_", 0xffff_ffff) {
        Some(None) => {
            return Err(GetFullviewUrlError::InvalidOption { option: from_chars(item) });
        },
        Some(Some(n)) => {
            if params.width.is_some() {
                return Err(GetFullviewUrlError::DuplicateOption { option: from_chars(item) });
            }
            return Ok(
                FullviewParams {
                    width: Some(n as u32),
                    height: params.height,
                    quality: params.quality,
                    strip: params.strip,
                },
            );
        },
        None => {},
    }
    match number_after(item, "h_", 0xffff_ffff) {
        Some(None) => {
            return Err(GetFullviewUrlError::InvalidOption { option: from_chars(item) });
        },
        Some(Some(n)) => {
            if params.height.is_some() {
                return Err(GetFullviewUrlError::DuplicateOption { option: from_chars(item) });
            }
            return Ok(
                FullviewParams {
                    width: params.width,
                    height: Some(n as u32),
                    quality: params.quality,
                    strip: params.strip,
                },
            );
        },
        None => {},
    }
    match number_after(item, "q_", 0xff) {
        Some(None) => {
            return Err(GetFullviewUrlError::InvalidOption { option: from_chars(item) });
        },
        Some(Some(n)) => {
            if params.quality.is_some() {
                return Err(GetFullviewUrlError::DuplicateOption { option: from_chars(item) });
            }
            return Ok(
                FullviewParams {
                    width: params.width,
                    height: params.height,
                    quality: Some(n as u8),
                    strip: params.strip,
                },
            );
        },
        None => {},
    }
    Err(GetFullviewUrlError::InvalidOption { option: from_chars(item) })
}

/// Reads the options that the items give, from left to right.
pub fn read_options(items: &Vec<Vec<char>>) -> (params: Result<
    FullviewParams,
    GetFullviewUrlError,
>)
    ensures
        params_view(params) == parse_options(texts(items@)),
{
    let mut params = FullviewParams { width: None, height: None, quality: None, strip: false };
    let mut i: usize = 0;
    assert(texts(items@).take(0).len() == 0);
    while i < items.len()
        invariant
            i <= items.len(),
            parse_options(texts(items@).take(i as int)) == Ok::<FullviewParams, FullviewFailure>(
                params,
            ),
        decreases items.len() - i,
    {
        proof {
            let upto = texts(items@).take(i + 1);
            assert(upto.drop_last() == texts(items@).take(i as int));
            assert(upto.last() == items@[i as int]@);
        }
        match with_option(params, &items[i]) {
            Ok(added) => {
                params = added;
            },
            Err(e) => {
                proof {
                    lemma_parse_options_failure(texts(items@), i + 1);
                }
                return Err(e);
            },
        }
        i += 1;
    }
    assert(texts(items@).take(items.len() as int) == texts(items@));
    Ok(params)
}

/// The items with `sep` between each two of them.
pub fn join_chars(items: &Vec<Vec<char>>, sep: char) -> (out: Vec<char>)
    ensures
        out@ == join(texts(items@), sep),
{
    let mut out: Vec<char> = Vec::new();
    let mut i: usize = 0;
    assert(texts(items@).take(0).len() == 0);
    while i < items.len()
        invariant
            i <= items.len(),
            out@ == join(texts(items@).take(i as int), sep),
        decreases items.len() - i,
    {
        proof {
            let upto = texts(items@).take(i + 1);
            assert(upto.drop_last() == texts(items@).take(i as int));
            assert(upto.last() == items@[i as int]@);
            if i == 0 {
                assert(upto[0] == items@[0]@);
                assert(Seq::<char>::empty() + items@[0]@ == items@[0]@);
            }
        }
        if i > 0 {
            out.push(sep);
        }
        append_chars(&mut out, &items[i]);
        i += 1;
    }
    assert(texts(items@).take(items.len() as int) == texts(items@));
    out
}

/// The option `key` followed by the decimal text of `n`.
fn numbered(key: &str, n: u64) -> (item: Vec<char>)
    ensures
        item@ == key@ + decimal_text(n as nat),
{
    let mut item = to_chars(key);
    let digits = format_u64(n);
    let digit_chars = to_chars(digits.as_str());
    append_chars(&mut item, &digit_chars);
    item
}

/// Writes `params` as a list of options separated by commas, in the order
/// width, height, quality, stripping.
pub fn write_options(params: &FullviewParams) -> (out: Vec<char>)
    ensures
        out@ == join(option_items(*params), ','),
{
    let mut items: Vec<Vec<char>> = Vec::new();
    assert(texts(items@) == Seq::<Seq<char>>::empty());
    if let Some(w) = params.width {
        let item = numbered("w_", w as u64);
        let ghost before = texts(items@);
        items.push(item);
        assert(texts(items@) == before.push(item@));
        assert(texts(items@) == before + seq![item@]);
    }
    let ghost first = texts(items@);
    assert(first == match params.width {
        Some(w) => seq!["w_"@ + decimal_text(w as nat)],
        None => seq![],
    });
    if let Some(h) = params.height {
        let item = numbered("h_", h as u64);
        let ghost before = texts(items@);
        items.push(item);
        assert(texts(items@) == before.push(item@));
        assert(texts(items@) == before + seq![item@]);
    }
    let ghost second = texts(items@);
    assert(second == first + (match params.height {
        Some(h) => seq!["h_"@ + decimal_text(h as nat)],
        None => seq![],
    }));
    if let Some(q) = params.quality {
        let item = numbered("q_", q as u64);
        let ghost before = texts(items@);
        items.push(item);
        assert(texts(items@) == before.push(item@));
        assert(texts(items@) == before + seq![item@]);
    }
    let ghost third = texts(items@);
    assert(third == second + (match params.quality {
        Some(q) => seq!["q_"@ + decimal_text(q as nat)],
        None => seq![],
    }));
    if params.strip {
        let item = to_chars("strp");
        let ghost before = texts(items@);
        items.push(item);
        assert(texts(items@) == before.push(item@));
        assert(texts(items@) == before + seq![item@]);
    }
    assert(texts(items@) == third + (if params.strip {
        seq!["strp"@]
    } else {
        seq![]
    }));
    join_chars(&items, ',')
}

/// The options that go into the URL: the template's, with the quality and
/// the stripping that the caller chose.
pub fn choose_params(params: &FullviewParams, options: &GetFullviewUrlOptions) -> (chosen:
    FullviewParams)
    ensures
        chosen == chosen_params(*params, *options),
{
    FullviewParams {
        width: params.width,
        height: params.height,
        quality: if options.quality.is_some() {
            options.quality
        } else {
            params.quality
        },
        strip: match options.strip {
            Some(strip) => strip,
            None => params.strip,
        },
    }
}

/// The file name for a PNG: `.png` in place of a final `.jpg`.
pub fn to_png_name(file: &Vec<char>) -> (name: Result<Vec<char>, GetFullviewUrlError>)
    ensures
        match name {
            Ok(name) => png_name(file@) == Ok::<Seq<char>, FullviewFailure>(name@),
            Err(e) => png_name(file@) == Err::<Seq<char>, FullviewFailure>(e@),
        },
{
    let jpg = to_chars(".jpg");
    if file.len() < jpg.len() || !matches_at(file, file.len() - jpg.len(), &jpg) {
        return Err(GetFullviewUrlError::NotJpg);
    }
    let png = to_chars(".png");
    let mut name: Vec<char> = Vec::new();
    let stem: usize = file.len() - jpg.len();
    let mut i: usize = 0;
    while i < stem
        invariant
            i <= stem <= file.len(),
            name@ == file@.take(i as int),
        decreases stem - i,
    {
        name.push(file[i]);
        assert(file@.take(i + 1) == file@.take(i as int).push(file@[i as int]));
        i += 1;
    }
    append_chars(&mut name, &png);
    Ok(name)
}

/// Builds the path segments that the template `content` gives for the pretty
/// name and the caller's choices.
pub fn fullview_path(
    content: &str,
    pretty_name: &Option<String>,
    options: &GetFullviewUrlOptions,
) -> (path: Result<Vec<String>, GetFullviewUrlError>)
    ensures
        path_view(path) == fullview_path_of(content@, text_of(*pretty_name), *options),
{
    let chars = to_chars(content);
    let parts = without_empty(split_chars(&chars, '/'));
    assert(texts(parts@) == path_segments(content@));
    assert(forall|i: int| 0 <= i < parts.len() ==> texts(parts@)[i] == parts@[i]@);
    if parts.len() < 1 {
        return Err(GetFullviewUrlError::MissingPathPart { expected: "v1" });
    }
    let v1 = to_chars("v1");
    if !chars_eq(&parts[0], &v1) {
        return Err(
            GetFullviewUrlError::InvalidPathPart { expected: "v1", actual: from_chars(&parts[0]) },
        );
    }
    if parts.len() < 2 {
        return Err(GetFullviewUrlError::MissingPathPart { expected: "fit|fill" });
    }
    let fit = to_chars("fit");
    let fill = to_chars("fill");
    if !chars_eq(&parts[1], &fit) && !chars_eq(&parts[1], &fill) {
        return Err(
            GetFullviewUrlError::InvalidPathPart {
                expected: "fit|fill",
                actual: from_chars(&parts[1]),
            },
        );
    }
    if parts.len() < 3 {
        return Err(GetFullviewUrlError::MissingPathPart { expected: "options" });
    }
    let items = split_chars(&parts[2], ',');
    let params = match read_options(&items) {
        Ok(params) => params,
        Err(e) => {
            return Err(e);
        },
    };
    if parts.len() < 4 {
        return Err(GetFullviewUrlError::MissingPathPart { expected: "file name" });
    }
    let name = match pretty_name {
        Some(name) => to_chars(name.as_str()),
        None => {
            return Err(GetFullviewUrlError::MissingPrettyName);
        },
    };
    let placeholder = to_chars("<prettyName>");
    let named = replace_chars(&parts[3], &placeholder, &name);
    let file = if options.png {
        match to_png_name(&named) {
            Ok(file) => file,
            Err(e) => {
                return Err(e);
            },
        }
    } else {
        named
    };
    if parts.len() > 4 {
        return Err(GetFullviewUrlError::UnexpectedPathPart { actual: from_chars(&parts[4]) });
    }
    let chosen = choose_params(&params, options);
    let written = write_options(&chosen);
    let mut path: Vec<String> = Vec::new();
    path.push(from_chars(&parts[0]));
    path.push(from_chars(&parts[1]));
    path.push(from_chars(&written));
    path.push(from_chars(&file));
    assert(Seq::new(path@.len(), |i: int| path@[i]@) == seq![
        parts@[0]@,
        parts@[1]@,
        written@,
        file@,
    ]);
    Ok(path)
}

} // verus!
