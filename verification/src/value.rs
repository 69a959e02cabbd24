//! The runtime values of the machine: a closed, tagged union with display,
//! type-tag and truthiness rules.
//!
//! The machine's numbers are IEEE-754 binary64 values.  Floating point cannot
//! be computed inside the verified library, so a number is carried as a
//! [`Numeric`]: its bit pattern together with its canonical display text and
//! its debug text, both produced once by the host that constructs the value.
//! Everything the engine reads of a number — its truthiness, its display
//! form, its debug form — is then available as plain data.

use vstd::prelude::*;
use vstd::string::StringExecFns;

verus! {

/// A number of the machine: the bit pattern of an IEEE-754 binary64 value,
/// with the display and debug texts of that value as the host rendered them.
pub struct Numeric {
    /// The binary64 bit pattern.
    pub bits: u64,
    /// The canonical display text of the value (its decimal text).
    pub display: String,
    /// The debug text of the value, as the output sink shows it.
    pub debug: String,
}

/// The mathematical model of a [`Numeric`].
pub struct NumericModel {
    pub bits: u64,
    pub display: Seq<char>,
    pub debug: Seq<char>,
}

impl View for Numeric {
    type V = NumericModel;

    open spec fn view(&self) -> NumericModel {
        NumericModel { bits: self.bits, display: self.display@, debug: self.debug@ }
    }
}

impl Clone for Numeric {
    fn clone(&self) -> (r: Numeric)
        ensures
            r == *self,
    {
        Numeric { bits: self.bits, display: self.display.clone(), debug: self.debug.clone() }
    }
}

/// A runtime value.  Values are immutable once constructed; operations that
/// combine values always produce a new value.
pub enum Value {
    Nil,
    Bool(bool),
    Number(Numeric),
    String(std::string::String),
}

/// The mathematical model of a [`Value`]: text is a sequence of characters.
pub enum ValueModel {
    Nil,
    Bool(bool),
    Number(NumericModel),
    Text(Seq<char>),
}

impl View for Value {
    type V = ValueModel;

    open spec fn view(&self) -> ValueModel {
        match self {
            Value::Nil => ValueModel::Nil,
            Value::Bool(b) => ValueModel::Bool(*b),
            Value::Number(n) => ValueModel::Number(n@),
            Value::String(s) => ValueModel::Text(s@),
        }
    }
}

/// The escaped, quoted debug form of a piece of text.
pub uninterp spec fn str_debug_text(s: Seq<char>) -> Seq<char>;

/// Relies on `str`'s `Debug` formatting: the escaped, quoted form of a
/// string is determined by its characters alone.
#[verifier::external_body]
pub(crate) fn text_debug(s: &str) -> (r: String)
    ensures
        r@ == str_debug_text(s@),
{
    format!("{:?}", s)
}

impl ValueModel {
    /// The canonical display form of a value: `nil`, `true`/`false`, a
    /// number's decimal text, or the text itself.
    pub open spec fn display_text(self) -> Seq<char> {
        match self {
            ValueModel::Nil => "nil"@,
            ValueModel::Bool(b) => if b { "true"@ } else { "false"@ },
            ValueModel::Number(n) => n.display,
            ValueModel::Text(s) => s,
        }
    }

    /// The type tag of a value, used only for diagnostics.
    pub open spec fn type_tag(self) -> Seq<char> {
        match self {
            ValueModel::Nil => "nil"@,
            ValueModel::Bool(_) => "bool"@,
            ValueModel::Number(_) => "number"@,
            ValueModel::Text(_) => "string"@,
        }
    }

    /// The truthiness of a value.  A number is truthy exactly when its
    /// magnitude bits are nonzero: the two bit patterns whose magnitude bits
    /// are zero are positive and negative zero, the only binary64 values that
    /// compare equal to zero (a NaN compares unequal to everything, so it is
    /// truthy).
    pub open spec fn truthy(self) -> bool {
        match self {
            ValueModel::Nil => false,
            ValueModel::Bool(b) => b,
            ValueModel::Number(n) => n.bits & 0x7fff_ffff_ffff_ffff != 0,
            ValueModel::Text(s) => s.len() != 0,
        }
    }

    /// The debug form of a value: the representation the output sink shows,
    /// which reveals the active variant, not merely its display string.
    pub open spec fn debug_text(self) -> Seq<char> {
        match self {
            ValueModel::Nil => "Nil"@,
            ValueModel::Bool(b) => if b { "Bool(true)"@ } else { "Bool(false)"@ },
            ValueModel::Number(n) => "Number("@ + n.debug + ")"@,
            ValueModel::Text(s) => "String("@ + str_debug_text(s) + ")"@,
        }
    }
}

impl Value {
    /// The canonical display string of this value.
    pub fn to_string(&self) -> (r: String)
        ensures
            r@ == self@.display_text(),
    {
        match self {
            Value::Nil => "nil".to_owned(),
            Value::Bool(b) => if *b {
                "true".to_owned()
            } else {
                "false".to_owned()
            },
            Value::Number(n) => n.display.clone(),
            Value::String(s) => s.clone(),
        }
    }

    /// The type tag of this value.
    pub fn get_type(&self) -> (r: &str)
        ensures
            r@ == self@.type_tag(),
    {
        match self {
            Value::Nil => "nil",
            Value::Bool(_) => "bool",
            Value::Number(_) => "number",
            Value::String(_) => "string",
        }
    }

    /// The truthiness of this value, consuming it.
    pub fn is_truthy(self) -> (r: bool)
        ensures
            r == self@.truthy(),
    {
        match self {
            Value::Nil => false,
            Value::Bool(b) => b,
            Value::Number(n) => n.bits & 0x7fff_ffff_ffff_ffff != 0,
            Value::String(s) => !s.as_str().is_empty(),
        }
    }

    /// The debug string of this value, as the output sink shows it.
    pub fn debug_string(&self) -> (r: String)
        ensures
            r@ == self@.debug_text(),
    {
        match self {
            Value::Nil => "Nil".to_owned(),
            Value::Bool(b) => if *b {
                "Bool(true)".to_owned()
            } else {
                "Bool(false)".to_owned()
            },
            Value::Number(n) => {
                let mut r = "Number(".to_owned();
                r.append(n.debug.as_str());
                r.append(")");
                r
            },
            Value::String(s) => {
                let mut r = "String(".to_owned();
                let quoted = text_debug(s.as_str());
                r.append(quoted.as_str());
                r.append(")");
                r
            },
        }
    }
}

impl Clone for Value {
    fn clone(&self) -> (r: Value)
        ensures
            r == *self,
    {
        match self {
            Value::Nil => Value::Nil,
            Value::Bool(b) => Value::Bool(*b),
            Value::Number(n) => Value::Number(n.clone()),
            Value::String(s) => Value::String(s.clone()),
        }
    }
}

} // verus!
