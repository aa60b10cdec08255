//! The result an operator hands back: one row holding the rendered image as
//! base64 text with its file name, type and size, the file document it is
//! uploaded as, and the type codes of the uploaded columns.

use crate::text::copy_str;
use base64::Engine;
use vstd::prelude::*;

verus! {

/// The character of a six-bit value in the standard base64 alphabet:
/// `A`-`Z`, `a`-`z`, `0`-`9`, `+`, `/`.
pub open spec fn base64_digit(v: int) -> char {
    if v < 26 {
        ('A' as int + v) as char
    } else if v < 52 {
        ('a' as int + (v - 26)) as char
    } else if v < 62 {
        ('0' as int + (v - 52)) as char
    } else if v == 62 {
        '+'
    } else {
        '/'
    }
}

/// Base64 with the standard alphabet and padding: each group of three bytes
/// gives four characters, six bits each, high bits first; a last group of
/// one or two bytes is filled with zero bits and padded with `=` to four.
pub open spec fn base64_standard(bytes: Seq<u8>) -> Seq<char>
    decreases bytes.len(),
{
    if bytes.len() == 0 {
        Seq::empty()
    } else if bytes.len() == 1 {
        let a = bytes[0] as int;
        seq![base64_digit(a / 4), base64_digit((a % 4) * 16), '=', '=']
    } else if bytes.len() == 2 {
        let a = bytes[0] as int;
        let b = bytes[1] as int;
        seq![base64_digit(a / 4), base64_digit((a % 4) * 16 + b / 16), base64_digit((b % 16) * 4), '=']
    } else {
        let a = bytes[0] as int;
        let b = bytes[1] as int;
        let c = bytes[2] as int;
        seq![
            base64_digit(a / 4),
            base64_digit((a % 4) * 16 + b / 16),
            base64_digit((b % 16) * 4 + c / 64),
            base64_digit(c % 64),
        ] + base64_standard(bytes.subrange(3, bytes.len() as int))
    }
}

/// The length of the padded base64 text of `n` bytes: four characters for
/// every started group of three bytes.
pub open spec fn padded_base64_len(n: nat) -> nat {
    (if n % 3 == 0 {
        n / 3
    } else {
        n / 3 + 1
    }) * 4
}

/// The base64 text of some bytes has the padded length.
pub proof fn lemma_base64_len(bytes: Seq<u8>)
    ensures
        base64_standard(bytes).len() == padded_base64_len(bytes.len()),
    decreases bytes.len(),
{
    if bytes.len() >= 3 {
        let rest = bytes.subrange(3, bytes.len() as int);
        lemma_base64_len(rest);
        assert(rest.len() == bytes.len() - 3);
        assert(rest.len() % 3 == bytes.len() % 3);
        assert(rest.len() / 3 == bytes.len() / 3 - 1);
    }
}

/// Calls `base64::engine::general_purpose::STANDARD.encode`: base64 with
/// the standard alphabet and padding (RFC 4648). The encoding panics where
/// the encoded length overflows `usize`, which the bound on the input rules
/// out.
#[verifier::external_body]
fn encode_base64(bytes: &Vec<u8>) -> (r: String)
    requires
        bytes@.len() <= usize::MAX / 2,
    ensures
        r@ == base64_standard(bytes@),
{
    base64::engine::general_purpose::STANDARD.encode(bytes)
}

/// A value of the result row.
#[derive(Debug, Clone, PartialEq, Eq)]
pub enum ResultValue {
    Text(String),
    /// A number of pixels; the uploaded column holds it as a double.
    Pixels(i32),
}

/// A column of the result row: its name and its one value.
#[derive(Debug, Clone)]
pub struct ResultColumn {
    pub name: String,
    pub value: ResultValue,
}

/// A value is the given text.
pub open spec fn text_is(v: ResultValue, t: Seq<char>) -> bool {
    v matches ResultValue::Text(x) && x@ == t
}

/// The result row of a plot, given its base64 text: `.content` holds the
/// text; the file name `plot.png`, the type `image/png` and the plot's width
/// and height go under the operator's namespace.
pub open spec fn result_row_of(
    content: Seq<char>,
    namespace: Seq<char>,
    width: i32,
    height: i32,
    row: Seq<ResultColumn>,
) -> bool {
    &&& row.len() == 5
    &&& row[0].name@ == ".content"@ && text_is(row[0].value, content)
    &&& row[1].name@ == namespace + ".filename"@ && text_is(row[1].value, "plot.png"@)
    &&& row[2].name@ == namespace + ".mimetype"@ && text_is(row[2].value, "image/png"@)
    &&& row[3].name@ == namespace + ".plot_width"@ && row[3].value == ResultValue::Pixels(width)
    &&& row[4].name@ == namespace + ".plot_height"@ && row[4].value == ResultValue::Pixels(height)
}

fn prefixed(namespace: &str, suffix: &str) -> (r: String)
    ensures
        r@ == namespace@ + suffix@,
{
    let mut s = copy_str(namespace);
    s.append(suffix);
    s
}

/// The result row of a plot whose image is already encoded as base64 text.
pub fn result_row_from_encoded(content: String, namespace: &str, width: i32, height: i32) -> (r:
    Vec<ResultColumn>)
    ensures
        result_row_of(content@, namespace@, width, height, r@),
{
    let mut row: Vec<ResultColumn> = Vec::new();
    row.push(ResultColumn { name: copy_str(".content"), value: ResultValue::Text(content) });
    row.push(
        ResultColumn {
            name: prefixed(namespace, ".filename"),
            value: ResultValue::Text(copy_str("plot.png")),
        },
    );
    row.push(
        ResultColumn {
            name: prefixed(namespace, ".mimetype"),
            value: ResultValue::Text(copy_str("image/png")),
        },
    );
    row.push(
        ResultColumn { name: prefixed(namespace, ".plot_width"), value: ResultValue::Pixels(width) },
    );
    row.push(
        ResultColumn {
            name: prefixed(namespace, ".plot_height"),
            value: ResultValue::Pixels(height),
        },
    );
    row
}

/// The result row of a rendered image: the image as base64 text, with its
/// file name, type and size.
pub fn result_row(png: &Vec<u8>, namespace: &str, width: i32, height: i32) -> (r: Vec<
    ResultColumn,
>)
    requires
        png@.len() <= usize::MAX / 2,
    ensures
        result_row_of(base64_standard(png@), namespace@, width, height, r@),
        text_is(r@[0].value, base64_standard(png@)),
        r@[0].value matches ResultValue::Text(t) ==> t@.len() == padded_base64_len(png@.len()),
{
    let content = encode_base64(png);
    proof {
        lemma_base64_len(png@);
    }
    result_row_from_encoded(content, namespace, width, height)
}

/// The TSON list type code of an uploaded column of the given type: 105 for
/// `int32`, 106 for `int64`, 111 for `double`, 112 for `string`; none for any
/// other type, which cannot be uploaded.
pub open spec fn tson_list_type_of(column_type: Seq<char>) -> Option<i32> {
    if column_type == "int32"@ {
        Some(105)
    } else if column_type == "int64"@ {
        Some(106)
    } else if column_type == "double"@ {
        Some(111)
    } else if column_type == "string"@ {
        Some(112)
    } else {
        None
    }
}

/// The TSON list type code of a column type.
pub fn tson_list_type(column_type: &str) -> (r: Option<i32>)
    ensures
        r == tson_list_type_of(column_type@),
{
    if crate::text::str_eq(column_type, "int32") {
        Some(105)
    } else if crate::text::str_eq(column_type, "int64") {
        Some(106)
    } else if crate::text::str_eq(column_type, "double") {
        Some(111)
    } else if crate::text::str_eq(column_type, "string") {
        Some(112)
    } else {
        None
    }
}

/// The file document a result table is uploaded as.
#[derive(Debug, Clone)]
pub struct ResultFile {
    pub name: String,
    pub project_id: String,
    pub size: i32,
    pub content_type: String,
}

/// The file document of a result of `size` bytes in a project: named
/// `result`, of type `application/octet-stream`; the size is stored as an
/// `i32`, wrapping as a cast does.
pub fn result_file(project_id: &str, size: usize) -> (r: ResultFile)
    ensures
        r.name@ == "result"@,
        r.project_id@ == project_id@,
        r.size == size as i32,
        r.content_type@ == "application/octet-stream"@,
{
    ResultFile {
        name: copy_str("result"),
        project_id: copy_str(project_id),
        size: size as i32,
        content_type: copy_str("application/octet-stream"),
    }
}

} // verus!
