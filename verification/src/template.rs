use crate::error::ConfigError;
use crate::text::is_digit;
use vstd::prelude::*;

verus! {

/// The most digits that a field width or a precision of a segment location
/// template may have.
pub const MAX_FIELD_DIGITS: usize = 9;

/// Whether `c` is one of printf's flags.
pub open spec fn is_flag(c: char) -> bool {
    c == '#' || c == '0' || c == '-' || c == ' ' || c == '+'
}

/// The first place at or behind `from` in `text` that holds no flag.
pub open spec fn skip_flags(text: Seq<char>, from: int) -> int
    decreases text.len() - from,
{
    if from < 0 || from >= text.len() || !is_flag(text[from]) {
        from
    } else {
        skip_flags(text, from + 1)
    }
}

/// How many digits stand in a row in `text` from `from` on.
pub open spec fn digits_from(text: Seq<char>, from: int) -> nat
    decreases text.len() - from,
{
    if from < 0 || from >= text.len() || !is_digit(text[from]) {
        0
    } else {
        1 + digits_from(text, from + 1)
    }
}

/// The place in `text` behind the field width that starts at `width`: behind
/// the star that stands for a width, or behind the digits of a width.
pub open spec fn behind_width(text: Seq<char>, width: int) -> int {
    if 0 <= width < text.len() && text[width] == '*' {
        width + 1
    } else {
        width + digits_from(text, width)
    }
}

/// Whether the field that the percent sign at `percent` opens has a width
/// and a precision of at most `MAX_FIELD_DIGITS` digits each. The width is
/// the digits behind the sign and its flags; the precision is the digits
/// behind the point that follows the width.
pub open spec fn field_fits(text: Seq<char>, percent: int) -> bool {
    let width = skip_flags(text, percent + 1);
    let point = behind_width(text, width);
    &&& digits_from(text, width) <= MAX_FIELD_DIGITS
    &&& (0 <= point < text.len() && text[point] == '.' ==> digits_from(text, point + 1)
        <= MAX_FIELD_DIGITS)
}

/// Whether every percent sign among the first `end` characters of `text`
/// opens a field that fits.
pub open spec fn fields_fit_before(text: Seq<char>, end: int) -> bool {
    forall|percent: int|
        0 <= percent < end && percent < text.len() && text[percent] == '%' ==> #[trigger] field_fits(
            text,
            percent,
        )
}

/// Whether every percent sign of `text` opens a field that fits.
pub open spec fn fields_fit(text: Seq<char>) -> bool {
    fields_fit_before(text, text.len() as int)
}

/// `sprintf::PrintfError`: why the formatter refused. The library carries
/// such a value from the formatter to `accept_formatted` and does not look
/// into it.
#[verifier::external_type_specification]
#[verifier::external_body]
pub struct ExPrintfError(sprintf::PrintfError);

/// What `sprintf::vsprintf` makes of `format` when `number` is its only
/// argument: the formatted text, or `None` where it reports an error.
pub uninterp spec fn vsprintf_number(format: Seq<char>, number: usize) -> Option<Seq<char>>;

/// Calls `sprintf::vsprintf` with `number` as the only argument. The result
/// is the one named by `vsprintf_number`. The parser adds up a width or a
/// precision in 32 bits, digit by digit, and reads one only behind a percent
/// sign and its flags or behind the point that follows a width: formats with
/// more than nine digits in such a place are left out.
#[verifier::external_body]
fn vsprintf_usize(format: &str, number: usize) -> (formatted: Result<String, sprintf::PrintfError>)
    requires
        fields_fit(format@),
    ensures
        formatted is Ok <==> vsprintf_number(format@, number) is Some,
        formatted matches Ok(text) ==> vsprintf_number(format@, number) == Some(text@),
{
    let arguments: [&dyn sprintf::Printf; 1] = [&number];
    sprintf::vsprintf(format, &arguments)
}

/// The location that `template` gives segment `index`, by printf's rules.
pub open spec fn segment_location(template: Seq<char>, index: usize) -> Result<
    Seq<char>,
    ConfigError,
> {
    if !fields_fit(template) {
        Err(ConfigError::FieldTooWide)
    } else {
        match vsprintf_number(template, index) {
            Some(name) => Ok(name),
            None => Err(ConfigError::BadPlaceholder),
        }
    }
}

/// What a `Result` holds, with the text of a `String` in place of the
/// `String`.
pub open spec fn text_of(r: Result<String, ConfigError>) -> Result<Seq<char>, ConfigError> {
    match r {
        Ok(s) => Ok(s@),
        Err(e) => Err(e),
    }
}

/// Finds the first place at or behind `from` in `text` that holds no flag.
fn flags_end(text: &str, from: usize) -> (end: usize)
    requires
        from <= text@.len(),
    ensures
        end == skip_flags(text@, from as int),
        from <= end <= text@.len(),
{
    let n = text.unicode_len();
    let mut end: usize = from;
    while end < n
        invariant
            n == text@.len(),
            from <= end <= n,
            skip_flags(text@, end as int) == skip_flags(text@, from as int),
        decreases n - end,
    {
        let c = text.get_char(end);
        if !(c == '#' || c == '0' || c == '-' || c == ' ' || c == '+') {
            return end;
        }
        end = end + 1;
    }
    end
}

/// Counts the digits that stand in a row in `text` from `from` on.
fn count_digits(text: &str, from: usize) -> (count: usize)
    requires
        from <= text@.len(),
    ensures
        count == digits_from(text@, from as int),
        from + count <= text@.len(),
{
    let n = text.unicode_len();
    let mut at: usize = from;
    while at < n
        invariant
            n == text@.len(),
            from <= at <= n,
            (at - from) + digits_from(text@, at as int) == digits_from(text@, from as int),
        decreases n - at,
    {
        let c = text.get_char(at);
        if !('0' <= c && c <= '9') {
            return at - from;
        }
        at = at + 1;
    }
    at - from
}

/// Whether the field that the percent sign at `percent` opens fits.
fn field_fits_at(text: &str, percent: usize) -> (fits: bool)
    requires
        percent < text@.len(),
    ensures
        fits == field_fits(text@, percent as int),
{
    let n = text.unicode_len();
    let width = flags_end(text, percent + 1);
    let width_digits = count_digits(text, width);
    if width_digits > MAX_FIELD_DIGITS {
        return false;
    }
    let point = if width < n && text.get_char(width) == '*' {
        width + 1
    } else {
        width + width_digits
    };
    if point < n && text.get_char(point) == '.' {
        count_digits(text, point + 1) <= MAX_FIELD_DIGITS
    } else {
        true
    }
}

/// Whether every percent sign of `template` opens a field that fits.
pub fn template_fields_fit(template: &str) -> (fit: bool)
    ensures
        fit == fields_fit(template@),
{
    let n = template.unicode_len();
    let mut at: usize = 0;
    while at < n
        invariant
            n == template@.len(),
            at <= n,
            fields_fit_before(template@, at as int),
        decreases n - at,
    {
        if template.get_char(at) == '%' {
            if !field_fits_at(template, at) {
                return false;
            }
        }
        at = at + 1;
    }
    true
}

/// Turns what the formatter returned for a segment into the segment's
/// location: a formatted name is the location, and any error of the
/// formatter becomes `BadPlaceholder`.
pub fn accept_formatted(formatted: Result<String, sprintf::PrintfError>) -> (location: Result<
    String,
    ConfigError,
>)
    ensures
        text_of(location) == (match formatted {
            Ok(name) => Ok::<Seq<char>, ConfigError>(name@),
            Err(_) => Err(ConfigError::BadPlaceholder),
        }),
{
    match formatted {
        Ok(name) => Ok(name),
        Err(_) => Err(ConfigError::BadPlaceholder),
    }
}

/// Formats the location of segment `index`.
pub fn format_segment_location(template: &str, index: usize) -> (location: Result<
    String,
    ConfigError,
>)
    ensures
        text_of(location) == segment_location(template@, index),
{
    if !template_fields_fit(template) {
        Err(ConfigError::FieldTooWide)
    } else {
        accept_formatted(vsprintf_usize(template, index))
    }
}

} // verus!
