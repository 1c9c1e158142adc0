//! A serialized representation of properties and errors, for logging,
//! debugging or cross-process transmission.
//!
//! Every property renders as an object holding its value and the
//! symbolic name of its permission; constrained variants additionally
//! render their bounds or their choice list. I/O-originated errors
//! render as their descriptive kind string rather than an opaque code.

use vstd::prelude::*;

use crate::properties::ChoiceProperty;
use crate::properties::Permission;
use crate::properties::Property;
use crate::properties::PropertyError;
use crate::properties::RangeProperty;
use crate::LightspeedError;

verus! {

/// Relies on String::push: appends exactly one character at the end.
#[verifier::external_body]
fn push_char(s: &mut String, c: char)
    ensures
        final(s)@ == old(s)@ + seq![c],
{
    s.push(c);
}

/// Relies on str::chars and Iterator::collect: the characters of the
/// string, in order.
#[verifier::external_body]
fn str_chars(s: &str) -> (r: Vec<char>)
    ensures
        r@ == s@,
{
    s.chars().collect()
}

/// The character for one decimal digit.
pub open spec fn dec_digit(d: nat) -> char {
    if d == 0 {
        '0'
    } else if d == 1 {
        '1'
    } else if d == 2 {
        '2'
    } else if d == 3 {
        '3'
    } else if d == 4 {
        '4'
    } else if d == 5 {
        '5'
    } else if d == 6 {
        '6'
    } else if d == 7 {
        '7'
    } else if d == 8 {
        '8'
    } else {
        '9'
    }
}

/// The decimal rendering of a natural number, most significant digit
/// first, without leading zeros.
pub open spec fn dec_chars(n: nat) -> Seq<char>
    decreases n,
{
    if n < 10 {
        seq![dec_digit(n)]
    } else {
        dec_chars(n / 10) + seq![dec_digit(n % 10)]
    }
}

/// The decimal rendering of an integer: a minus sign before the digits
/// of the magnitude when negative.
pub open spec fn int_chars(i: int) -> Seq<char> {
    if i < 0 {
        seq!['-'] + dec_chars((-i) as nat)
    } else {
        dec_chars(i as nat)
    }
}

/// The rendering of a boolean.
pub open spec fn bool_chars(b: bool) -> Seq<char> {
    if b {
        "true"@
    } else {
        "false"@
    }
}

/// How one character renders inside a quoted string: quotes, backslashes
/// and the common control characters are escaped, everything else stands
/// for itself.
pub open spec fn esc_char(c: char) -> Seq<char> {
    if c == '"' {
        seq!['\\', '"']
    } else if c == '\\' {
        seq!['\\', '\\']
    } else if c == '\n' {
        seq!['\\', 'n']
    } else if c == '\r' {
        seq!['\\', 'r']
    } else if c == '\t' {
        seq!['\\', 't']
    } else {
        seq![c]
    }
}

/// The escaped rendering of a character sequence.
pub open spec fn escaped_chars(s: Seq<char>) -> Seq<char>
    decreases s.len(),
{
    if s.len() == 0 {
        Seq::empty()
    } else {
        escaped_chars(s.drop_last()) + esc_char(s.last())
    }
}

/// The rendering of a string value: its escaped characters in quotes.
pub open spec fn string_chars(s: Seq<char>) -> Seq<char> {
    seq!['"'] + escaped_chars(s) + seq!['"']
}

/// The symbolic name of a permission, quoted.
pub open spec fn permission_chars(p: Permission) -> Seq<char> {
    match p {
        Permission::ReadOnly => "\"ReadOnly\""@,
        Permission::ReadWrite => "\"ReadWrite\""@,
    }
}

/// The rendering of a plain property.
pub open spec fn plain_json_chars(value: Seq<char>, p: Permission) -> Seq<char> {
    "{\"value\":"@ + value + ",\"permission\":"@ + permission_chars(p) + "}"@
}

/// The rendering of a range property.
pub open spec fn range_json_chars(
    value: Seq<char>,
    p: Permission,
    min: Seq<char>,
    max: Seq<char>,
) -> Seq<char> {
    "{\"value\":"@ + value + ",\"permission\":"@ + permission_chars(p) + ",\"range\":{\"min\":"@
        + min + ",\"max\":"@ + max + "}}"@
}

/// A comma-separated join of rendered items.
pub open spec fn joined_chars(items: Seq<Seq<char>>) -> Seq<char>
    decreases items.len(),
{
    if items.len() == 0 {
        Seq::empty()
    } else if items.len() == 1 {
        items[0]
    } else {
        joined_chars(items.drop_last()) + seq![','] + items.last()
    }
}

/// The rendering of a choice property.
pub open spec fn choice_json_chars(
    value: Seq<char>,
    p: Permission,
    choices: Seq<Seq<char>>,
) -> Seq<char> {
    "{\"value\":"@ + value + ",\"permission\":"@ + permission_chars(p) + ",\"choices\":["@
        + joined_chars(choices) + "]}"@
}

/// The rendering of a property-level error: its kind name, quoted.
pub open spec fn property_error_chars(e: PropertyError) -> Seq<char> {
    match e {
        PropertyError::CannotUpdateReadOnlyProp => "\"CannotUpdateReadOnlyProp\""@,
        PropertyError::InvalidValue => "\"InvalidValue\""@,
    }
}

/// The rendering of a driver error: unit kinds as their quoted name,
/// kinds that carry data as a one-field object.
pub open spec fn lightspeed_error_chars(e: LightspeedError) -> Seq<char> {
    match e {
        LightspeedError::PropertyError(pe) => "{\"PropertyError\":"@ + property_error_chars(pe)
            + "}"@,
        LightspeedError::IoError(s) => "{\"IoError\":"@ + string_chars(s@) + "}"@,
        LightspeedError::UnknownProperty => "\"UnknownProperty\""@,
        LightspeedError::DeviceConnectionError => "\"DeviceConnectionError\""@,
    }
}

fn dec_digit_of(d: u8) -> (c: char)
    requires
        d < 10,
    ensures
        c == dec_digit(d as nat),
{
    if d == 0 {
        '0'
    } else if d == 1 {
        '1'
    } else if d == 2 {
        '2'
    } else if d == 3 {
        '3'
    } else if d == 4 {
        '4'
    } else if d == 5 {
        '5'
    } else if d == 6 {
        '6'
    } else if d == 7 {
        '7'
    } else if d == 8 {
        '8'
    } else {
        '9'
    }
}

/// Append the decimal rendering of `n`.
pub fn push_dec_u64(out: &mut String, n: u64)
    ensures
        final(out)@ == old(out)@ + dec_chars(n as nat),
    decreases n,
{
    if n < 10 {
        push_char(out, dec_digit_of(n as u8));
    } else {
        push_dec_u64(out, n / 10);
        push_char(out, dec_digit_of((n % 10) as u8));
        proof {
            assert(out@ =~= old(out)@ + dec_chars(n as nat));
        }
    }
}

/// Append the decimal rendering of `i`, minus sign included.
pub fn push_dec_i64(out: &mut String, i: i64)
    ensures
        final(out)@ == old(out)@ + int_chars(i as int),
{
    if i >= 0 {
        push_dec_u64(out, i as u64);
    } else {
        push_char(out, '-');
        let mag: u64 = if i == i64::MIN {
            9223372036854775808u64
        } else {
            (-i) as u64
        };
        push_dec_u64(out, mag);
        proof {
            assert(mag as nat == (-(i as int)) as nat);
            assert(out@ =~= old(out)@ + int_chars(i as int));
        }
    }
}

/// Append the escaped rendering of the characters of `s`.
fn push_escaped(out: &mut String, s: &str)
    ensures
        final(out)@ == old(out)@ + escaped_chars(s@),
{
    let cs = str_chars(s);
    let n: usize = cs.len();
    let mut k: usize = 0;
    while k < n
        invariant
            cs@ == s@,
            n == cs@.len(),
            k <= n,
            out@ == old(out)@ + escaped_chars(s@.take(k as int)),
        decreases n - k,
    {
        let c = cs[k];
        if c == '"' {
            push_char(out, '\\');
            push_char(out, '"');
        } else if c == '\\' {
            push_char(out, '\\');
            push_char(out, '\\');
        } else if c == '\n' {
            push_char(out, '\\');
            push_char(out, 'n');
        } else if c == '\r' {
            push_char(out, '\\');
            push_char(out, 'r');
        } else if c == '\t' {
            push_char(out, '\\');
            push_char(out, 't');
        } else {
            push_char(out, c);
        }
        proof {
            assert(s@.take((k + 1) as int).drop_last() =~= s@.take(k as int));
            assert(s@.take((k + 1) as int).last() == s@[k as int]);
            assert(out@ =~= old(out)@ + escaped_chars(s@.take((k + 1) as int)));
        }
        k += 1;
    }
    proof {
        assert(s@.take(n as int) =~= s@);
    }
}

/// The quoted, escaped rendering of a string.
pub fn string_to_json(s: &str) -> (r: String)
    ensures
        r@ == string_chars(s@),
{
    let mut out = String::new();
    push_char(&mut out, '"');
    push_escaped(&mut out, s);
    push_char(&mut out, '"');
    proof {
        assert(out@ =~= string_chars(s@));
    }
    out
}

/// The quoted symbolic name of a permission.
pub fn permission_to_json(p: &Permission) -> (r: &'static str)
    ensures
        r@ == permission_chars(*p),
{
    match p {
        Permission::ReadOnly => "\"ReadOnly\"",
        Permission::ReadWrite => "\"ReadWrite\"",
    }
}

/// A value that knows its serialized rendering.
pub trait ToJson {
    /// The rendering of the value.
    spec fn spec_json(&self) -> Seq<char>;

    /// Produce the rendering.
    fn to_json(&self) -> (r: String)
        ensures
            r@ == self.spec_json(),
    ;
}

impl ToJson for i64 {
    open spec fn spec_json(&self) -> Seq<char> {
        int_chars(*self as int)
    }

    fn to_json(&self) -> (r: String) {
        let mut out = String::new();
        push_dec_i64(&mut out, *self);
        out
    }
}

impl ToJson for i32 {
    open spec fn spec_json(&self) -> Seq<char> {
        int_chars(*self as int)
    }

    fn to_json(&self) -> (r: String) {
        let mut out = String::new();
        push_dec_i64(&mut out, *self as i64);
        out
    }
}

impl ToJson for u64 {
    open spec fn spec_json(&self) -> Seq<char> {
        dec_chars(*self as nat)
    }

    fn to_json(&self) -> (r: String) {
        let mut out = String::new();
        push_dec_u64(&mut out, *self);
        out
    }
}

impl ToJson for u32 {
    open spec fn spec_json(&self) -> Seq<char> {
        dec_chars(*self as nat)
    }

    fn to_json(&self) -> (r: String) {
        let mut out = String::new();
        push_dec_u64(&mut out, *self as u64);
        out
    }
}

impl ToJson for bool {
    open spec fn spec_json(&self) -> Seq<char> {
        bool_chars(*self)
    }

    fn to_json(&self) -> (r: String) {
        let mut out = String::new();
        if *self {
            out.append("true");
        } else {
            out.append("false");
        }
        out
    }
}

impl ToJson for String {
    open spec fn spec_json(&self) -> Seq<char> {
        string_chars(self@)
    }

    fn to_json(&self) -> (r: String) {
        string_to_json(self.as_str())
    }
}

impl ToJson for crate::device::PropValue {
    open spec fn spec_json(&self) -> Seq<char> {
        match self {
            crate::device::PropValue::Int(i) => int_chars(*i as int),
            crate::device::PropValue::Bool(b) => bool_chars(*b),
            crate::device::PropValue::Text(s) => string_chars(s@),
        }
    }

    fn to_json(&self) -> (r: String) {
        match self {
            crate::device::PropValue::Int(i) => {
                let mut out = String::new();
                push_dec_i64(&mut out, *i);
                out
            },
            crate::device::PropValue::Bool(b) => {
                let mut out = String::new();
                if *b {
                    out.append("true");
                } else {
                    out.append("false");
                }
                out
            },
            crate::device::PropValue::Text(s) => string_to_json(s.as_str()),
        }
    }
}

impl<T: ToJson> ToJson for Property<T> {
    open spec fn spec_json(&self) -> Seq<char> {
        plain_json_chars(self.value.spec_json(), self.permission)
    }

    fn to_json(&self) -> (r: String) {
        let mut out = String::new();
        out.append("{\"value\":");
        let val = self.value.to_json();
        out.append(val.as_str());
        out.append(",\"permission\":");
        out.append(permission_to_json(&self.permission));
        out.append("}");
        proof {
            assert(out@ =~= self.spec_json());
        }
        out
    }
}

impl<T: ToJson> ToJson for RangeProperty<T> {
    open spec fn spec_json(&self) -> Seq<char> {
        range_json_chars(
            self.value.spec_json(),
            self.permission,
            self.range.min.spec_json(),
            self.range.max.spec_json(),
        )
    }

    fn to_json(&self) -> (r: String) {
        let mut out = String::new();
        out.append("{\"value\":");
        let val = self.value.to_json();
        out.append(val.as_str());
        out.append(",\"permission\":");
        out.append(permission_to_json(&self.permission));
        out.append(",\"range\":{\"min\":");
        let min = self.range.min.to_json();
        out.append(min.as_str());
        out.append(",\"max\":");
        let max = self.range.max.to_json();
        out.append(max.as_str());
        out.append("}}");
        proof {
            assert(out@ =~= self.spec_json());
        }
        out
    }
}

impl<T: Clone + ToJson> ToJson for ChoiceProperty<T> {
    open spec fn spec_json(&self) -> Seq<char> {
        choice_json_chars(
            self.value.spec_json(),
            self.permission,
            self.choices@.map_values(|c: T| c.spec_json()),
        )
    }

    fn to_json(&self) -> (r: String) {
        let ghost rendered = self.choices@.map_values(|c: T| c.spec_json());
        let mut out = String::new();
        out.append("{\"value\":");
        let val = self.value.to_json();
        out.append(val.as_str());
        out.append(",\"permission\":");
        out.append(permission_to_json(&self.permission));
        out.append(",\"choices\":[");
        let ghost head = out@;
        let n: usize = self.choices.len();
        let mut k: usize = 0;
        while k < n
            invariant
                n == self.choices@.len(),
                k <= n,
                rendered == self.choices@.map_values(|c: T| c.spec_json()),
                out@ == head + joined_chars(rendered.take(k as int)),
            decreases n - k,
        {
            if k > 0 {
                push_char(&mut out, ',');
            }
            let item = self.choices[k].to_json();
            out.append(item.as_str());
            proof {
                assert(rendered.take((k + 1) as int).drop_last() =~= rendered.take(k as int));
                assert(rendered.take((k + 1) as int).last() == rendered[k as int]);
                assert(rendered[k as int] == self.choices@[k as int].spec_json());
                assert(out@ =~= head + joined_chars(rendered.take((k + 1) as int)));
            }
            k += 1;
        }
        out.append("]}");
        proof {
            assert(rendered.take(n as int) =~= rendered);
            assert(out@ =~= self.spec_json());
        }
        out
    }
}

/// The quoted kind name of a property-level error.
pub fn property_error_to_json(e: &PropertyError) -> (r: &'static str)
    ensures
        r@ == property_error_chars(*e),
{
    match e {
        PropertyError::CannotUpdateReadOnlyProp => "\"CannotUpdateReadOnlyProp\"",
        PropertyError::InvalidValue => "\"InvalidValue\"",
    }
}

impl LightspeedError {
    /// The serialized rendering of the error, its descriptive kind
    /// rather than an opaque code.
    pub fn to_json(&self) -> (r: String)
        ensures
            r@ == lightspeed_error_chars(*self),
    {
        match self {
            LightspeedError::PropertyError(pe) => {
                let mut out = String::new();
                out.append("{\"PropertyError\":");
                out.append(property_error_to_json(pe));
                out.append("}");
                proof {
                    assert(out@ =~= lightspeed_error_chars(*self));
                }
                out
            },
            LightspeedError::IoError(s) => {
                let mut out = String::new();
                out.append("{\"IoError\":");
                let body = string_to_json(s.as_str());
                out.append(body.as_str());
                out.append("}");
                proof {
                    assert(out@ =~= lightspeed_error_chars(*self));
                }
                out
            },
            LightspeedError::UnknownProperty => {
                let mut out = String::new();
                out.append("\"UnknownProperty\"");
                proof {
                    assert(out@ =~= lightspeed_error_chars(*self));
                }
                out
            },
            LightspeedError::DeviceConnectionError => {
                let mut out = String::new();
                out.append("\"DeviceConnectionError\"");
                proof {
                    assert(out@ =~= lightspeed_error_chars(*self));
                }
                out
            },
        }
    }
}

} // verus!

