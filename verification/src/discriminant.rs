//! Constants that stand for the variants of an enum: how each is named and
//! built, and when a variant cannot have one.
//!
//! For every variant a constant is planned that holds the discriminant of
//! the variant. A variant with fields needs default values to be built
//! from; they are given, together with an optional name for the constant, in
//! an attribute on the variant. Here the attribute is known by the name it
//! gives and by the shape of its defaults.
use vstd::prelude::*;
use crate::sso::text::str_equal;

verus! {

/// Whether a character is uppercase, as `char::is_uppercase` tells: whether
/// it has the Unicode property `Uppercase`.
pub uninterp spec fn char_is_uppercase(c: char) -> bool;

/// The uppercase form of a character, as `char::to_uppercase` gives it: one
/// or more characters.
pub uninterp spec fn char_to_uppercase(c: char) -> Seq<char>;

/// The ASCII uppercase form of a character: the letters `a` to `z` become
/// `A` to `Z`, every other character stays as it is.
pub open spec fn char_to_ascii_uppercase(c: char) -> char {
    if 'a' <= c <= 'z' {
        ((c as u32) - 32) as char
    } else {
        c
    }
}

/// `char::is_uppercase` is a function of the character alone.
pub assume_specification[ char::is_uppercase ](c: char) -> (r: bool)
    ensures
        r == char_is_uppercase(c),
;

/// `char::to_ascii_uppercase` maps the ASCII letters `a` to `z` to `A` to
/// `Z` and leaves every other character unchanged.
pub assume_specification[ char::to_ascii_uppercase ](c: &char) -> (r: char)
    ensures
        r == char_to_ascii_uppercase(*c),
;

/// The characters that `char::to_uppercase` yields for `c`, in order.
#[verifier::external_body]
fn to_uppercase(c: char) -> (r: Vec<char>)
    ensures
        r@ == char_to_uppercase(c),
{
    c.to_uppercase().collect()
}

/// The string that collecting the given characters into a `String` gives:
/// the characters themselves, in order.
#[verifier::external_body]
fn string_of(chars: &Vec<char>) -> (r: String)
    ensures
        r@ == chars@,
{
    chars.iter().collect()
}

/// What the character at position `i` of a name contributes to its
/// screaming form: an uppercase character contributes its uppercase form,
/// after an underscore when it is not the first character and follows one
/// that is not uppercase; any other character contributes its ASCII
/// uppercase form.
pub open spec fn screaming_piece(name: Seq<char>, i: int) -> Seq<char> {
    if char_is_uppercase(name[i]) {
        if i != 0 && !char_is_uppercase(name[i - 1]) {
            seq!['_'] + char_to_uppercase(name[i])
        } else {
            char_to_uppercase(name[i])
        }
    } else {
        seq![char_to_ascii_uppercase(name[i])]
    }
}

/// The screaming form of the first `n` characters of a name: their pieces,
/// one after the other.
pub open spec fn screaming_prefix(name: Seq<char>, n: int) -> Seq<char>
    decreases n,
{
    if n <= 0 {
        Seq::<char>::empty()
    } else {
        screaming_prefix(name, n - 1) + screaming_piece(name, n - 1)
    }
}

/// The screaming form of a name, which turns `CamelCase` into
/// `CAMEL_CASE`.
pub open spec fn screaming(name: Seq<char>) -> Seq<char> {
    screaming_prefix(name, name.len() as int)
}

/// Turns a name in camel case into its screaming form.
pub fn camel_to_screaming(s: &str) -> (r: String)
    ensures
        r@ == screaming(s@),
{
    let mut result: Vec<char> = Vec::new();
    let mut prev_upper = false;
    let mut first = true;
    for ch in it: s.chars()
        invariant
            it.seq() == s@,
            first == (it.index() == 0),
            result@ == screaming_prefix(s@, it.index() as int),
            it.index() > 0 ==> prev_upper == char_is_uppercase(s@[it.index() - 1]),
    {
        let ghost i = it.index() as int;
        if ch.is_uppercase() {
            if !first && !prev_upper {
                result.push('_');
            }
            let mut upper = to_uppercase(ch);
            result.append(&mut upper);
            prev_upper = true;
        } else {
            result.push(ch.to_ascii_uppercase());
            prev_upper = false;
        }
        first = false;
        proof {
            assert(result@ =~= screaming_prefix(s@, i) + screaming_piece(s@, i));
        }
    }
    string_of(&result)
}

/// Whether every character of a name is uppercase. A name without
/// characters counts as such.
pub open spec fn all_uppercase(name: Seq<char>) -> bool {
    forall|i: int| 0 <= i < name.len() ==> char_is_uppercase(#[trigger] name[i])
}

/// Whether a name consists of uppercase characters only, in which case its
/// screaming form could not be told from the name itself.
pub fn is_all_uppercase(s: &str) -> (r: bool)
    ensures
        r == all_uppercase(s@),
{
    for ch in it: s.chars()
        invariant
            it.seq() == s@,
            forall|i: int| 0 <= i < it.index() ==> char_is_uppercase(#[trigger] s@[i]),
    {
        if !ch.is_uppercase() {
            return false;
        }
    }
    true
}

/// Whether a character may stand in a name in upper snake case: an ASCII
/// uppercase letter, an underscore or an ASCII digit.
pub open spec fn is_upper_snake_char(c: char) -> bool {
    ('A' <= c <= 'Z') || c == '_' || ('0' <= c <= '9')
}

/// Whether a name is in upper snake case.
pub open spec fn upper_snake_case(name: Seq<char>) -> bool {
    forall|i: int| 0 <= i < name.len() ==> is_upper_snake_char(#[trigger] name[i])
}

/// Checks that a name given for a constant is `UPPER_SNAKE_CASE`.
pub fn is_upper_snake_case(s: &str) -> (r: bool)
    ensures
        r == upper_snake_case(s@),
{
    for ch in it: s.chars()
        invariant
            it.seq() == s@,
            forall|i: int| 0 <= i < it.index() ==> is_upper_snake_char(#[trigger] s@[i]),
    {
        if !(('A' <= ch && ch <= 'Z') || ch == '_' || ('0' <= ch && ch <= '9')) {
            return false;
        }
    }
    true
}

/// Whether a name is that of an unsigned integer type that an enum can be
/// represented by.
pub open spec fn unsigned_repr(name: Seq<char>) -> bool {
    name == "u8"@ || name == "u16"@ || name == "u32"@ || name == "u64"@ || name == "u128"@
}

/// Checks whether a `repr` argument names an unsigned integer type.
pub fn is_unsigned_repr(s: &str) -> (r: bool)
    ensures
        r == unsigned_repr(s@),
{
    str_equal(s, "u8") || str_equal(s, "u16") || str_equal(s, "u32") || str_equal(s, "u64")
        || str_equal(s, "u128")
}

/// The defaults that an attribute gives, by shape.
#[derive(Copy, Clone, Debug, PartialEq, Eq, Structural)]
pub enum EnumFields {
    /// One literal, for a variant with a single unnamed field.
    SingleDefault,
    /// A tuple of that many values, for unnamed fields.
    Unnamed(usize),
    /// That many values by field name, for named fields.
    Named(usize),
}

/// The fields of a variant, by shape.
#[derive(Copy, Clone, Debug, PartialEq, Eq, Structural)]
pub enum VariantFields {
    /// No fields.
    Unit,
    /// That many unnamed fields.
    Unnamed(usize),
    /// That many named fields.
    Named(usize),
}

/// How the value is written whose discriminant the constant holds.
#[derive(Copy, Clone, Debug, PartialEq, Eq, Structural)]
pub enum Constructor {
    /// The variant alone.
    Unit,
    /// The variant applied to the defaults.
    Tuple,
    /// The variant with the defaults by field name.
    Struct,
}

/// Why a variant cannot have a constant.
#[derive(Copy, Clone, Debug, PartialEq, Eq, Structural)]
pub enum VariantError {
    /// A single default was given for a variant without fields.
    DefaultOnUnit,
    /// Defaults were given for a variant without fields.
    DefaultsOnUnit,
    /// The variant has no attribute and its name is all uppercase already,
    /// so a name must be given.
    UppercaseNeedsName,
    /// The variant has fields and no attribute.
    MissingAttribute,
    /// The variant has fields and its attribute gives no defaults.
    NoDefaults,
    /// Named defaults were given for unnamed fields, or the reverse.
    KindMismatch,
    /// The number of defaults differs from the number of fields.
    CountMismatch,
    /// The variant has fields, its attribute gives no name and its own name
    /// is all uppercase already.
    UppercaseNonUnitNeedsName,
}

/// What the attribute of a variant says, in the abstract.
pub struct AttrsView {
    pub name: Option<Seq<char>>,
    pub fields: Option<EnumFields>,
}

/// What the attribute of a variant says: the name for the constant, if it
/// gives one, and the shape of the defaults, if it gives any.
#[derive(Clone, Debug)]
pub struct DiscriminantAttrs {
    pub name: Option<String>,
    pub fields: Option<EnumFields>,
}

/// A planned constant, in the abstract.
pub struct ConstSpec {
    pub name: Seq<char>,
    pub constructor: Constructor,
}

/// A planned constant: its name and how its value is built.
#[derive(Clone, Debug)]
pub struct ConstPlan {
    pub name: String,
    pub constructor: Constructor,
}

impl View for DiscriminantAttrs {
    type V = AttrsView;

    open spec fn view(&self) -> AttrsView {
        AttrsView {
            name: match self.name {
                Some(n) => Some(n@),
                None => None,
            },
            fields: self.fields,
        }
    }
}

impl View for ConstPlan {
    type V = ConstSpec;

    open spec fn view(&self) -> ConstSpec {
        ConstSpec { name: self.name@, constructor: self.constructor }
    }
}

impl EnumFields {
    /// The number of values given.
    pub open spec fn spec_len(self) -> nat {
        match self {
            EnumFields::SingleDefault => 1,
            EnumFields::Unnamed(n) => n as nat,
            EnumFields::Named(n) => n as nat,
        }
    }

    /// The number of values given.
    pub fn len(self) -> (n: usize)
        ensures
            n == self.spec_len(),
    {
        match self {
            EnumFields::SingleDefault => 1,
            EnumFields::Unnamed(n) => n,
            EnumFields::Named(n) => n,
        }
    }
}

impl VariantFields {
    /// The number of fields.
    pub open spec fn count(self) -> nat {
        match self {
            VariantFields::Unit => 0,
            VariantFields::Unnamed(n) => n as nat,
            VariantFields::Named(n) => n as nat,
        }
    }

    /// Whether defaults of the given shape can fill these fields: named
    /// defaults for named fields, a tuple or a single default for unnamed
    /// ones.
    pub open spec fn takes(self, defaults: EnumFields) -> bool {
        match (self, defaults) {
            (VariantFields::Named(_), EnumFields::Named(_)) => true,
            (VariantFields::Unnamed(_), EnumFields::Unnamed(_)) => true,
            (VariantFields::Unnamed(_), EnumFields::SingleDefault) => true,
            _ => false,
        }
    }

    /// How a variant with these fields is constructed.
    pub open spec fn constructor(self) -> Constructor {
        match self {
            VariantFields::Unit => Constructor::Unit,
            VariantFields::Unnamed(_) => Constructor::Tuple,
            VariantFields::Named(_) => Constructor::Struct,
        }
    }
}

impl AttrsView {
    /// The number of defaults given, zero where none are.
    pub open spec fn num_defaults(self) -> nat {
        match self.fields {
            Some(f) => f.spec_len(),
            None => 0,
        }
    }
}

impl DiscriminantAttrs {
    /// The number of defaults given, zero where none are.
    pub fn num_defaults(&self) -> (n: usize)
        ensures
            n == self@.num_defaults(),
    {
        match self.fields {
            Some(f) => f.len(),
            None => 0,
        }
    }

    /// Whether the number of defaults differs from `count`.
    pub fn check_field_count(&self, count: usize) -> (differs: bool)
        ensures
            differs == (self@.num_defaults() != count),
    {
        self.num_defaults() != count
    }
}

/// The name of the constant of a variant: the one given, or else the
/// screaming form of the variant's own name.
pub open spec fn const_name(variant: Seq<char>, given: Option<Seq<char>>) -> Seq<char> {
    match given {
        Some(n) => n,
        None => screaming(variant),
    }
}

/// The constant planned for a variant, or why it has none.
///
/// A variant without fields needs no attribute, and must not be given
/// defaults. A variant with fields needs defaults of the kind and number of
/// its fields. Where no name is given, the constant is named by the
/// screaming form of the variant's name; a name that is all uppercase
/// already is refused then, except for a variant without fields whose
/// attribute is present.
pub open spec fn variant_plan(
    variant: Seq<char>,
    fields: VariantFields,
    attrs: Option<AttrsView>,
) -> Result<ConstSpec, VariantError> {
    match (fields, attrs) {
        (VariantFields::Unit, Some(a)) => match a.fields {
            Some(EnumFields::SingleDefault) => Err(VariantError::DefaultOnUnit),
            Some(_) => Err(VariantError::DefaultsOnUnit),
            None => Ok(
                ConstSpec { name: const_name(variant, a.name), constructor: Constructor::Unit },
            ),
        },
        (VariantFields::Unit, None) => if all_uppercase(variant) {
            Err(VariantError::UppercaseNeedsName)
        } else {
            Ok(ConstSpec { name: screaming(variant), constructor: Constructor::Unit })
        },
        (_, None) => if all_uppercase(variant) {
            Err(VariantError::UppercaseNeedsName)
        } else {
            Err(VariantError::MissingAttribute)
        },
        (f, Some(a)) => match a.fields {
            None => Err(VariantError::NoDefaults),
            Some(d) => if !f.takes(d) {
                Err(VariantError::KindMismatch)
            } else if d.spec_len() != f.count() {
                Err(VariantError::CountMismatch)
            } else if a.name is None && all_uppercase(variant) {
                Err(VariantError::UppercaseNonUnitNeedsName)
            } else {
                Ok(ConstSpec { name: const_name(variant, a.name), constructor: f.constructor() })
            },
        },
    }
}

/// The name for the constant of `variant`: a copy of the given one, or the
/// screaming form of the variant's name.
fn name_for(variant: &str, given: &Option<String>) -> (r: String)
    ensures
        r@ == const_name(
            variant@,
            match given {
                Some(n) => Some(n@),
                None => None,
            },
        ),
{
    match given {
        Some(n) => n.clone(),
        None => camel_to_screaming(variant),
    }
}

/// Plans the constant for one variant of an enum, from the variant's name,
/// the shape of its fields and what its attribute says, if it has one.
pub fn plan_variant(variant: &str, fields: VariantFields, attrs: Option<&DiscriminantAttrs>) -> (r:
    Result<ConstPlan, VariantError>)
    ensures
        match r {
            Ok(plan) => variant_plan(
                variant@,
                fields,
                match attrs {
                    Some(a) => Some(a@),
                    None => None,
                },
            ) == Ok::<ConstSpec, VariantError>(plan@),
            Err(e) => variant_plan(
                variant@,
                fields,
                match attrs {
                    Some(a) => Some(a@),
                    None => None,
                },
            ) == Err::<ConstSpec, VariantError>(e),
        },
{
    match attrs {
        None => {
            if is_all_uppercase(variant) {
                Err(VariantError::UppercaseNeedsName)
            } else {
                match fields {
                    VariantFields::Unit => Ok(
                        ConstPlan {
                            name: camel_to_screaming(variant),
                            constructor: Constructor::Unit,
                        },
                    ),
                    _ => Err(VariantError::MissingAttribute),
                }
            }
        },
        Some(a) => {
            match fields {
                VariantFields::Unit => match a.fields {
                    Some(EnumFields::SingleDefault) => Err(VariantError::DefaultOnUnit),
                    Some(_) => Err(VariantError::DefaultsOnUnit),
                    None => Ok(
                        ConstPlan {
                            name: name_for(variant, &a.name),
                            constructor: Constructor::Unit,
                        },
                    ),
                },
                VariantFields::Unnamed(count) => match a.fields {
                    None => Err(VariantError::NoDefaults),
                    Some(EnumFields::Named(_)) => Err(VariantError::KindMismatch),
                    Some(_) => {
                        if a.check_field_count(count) {
                            Err(VariantError::CountMismatch)
                        } else if a.name.is_none() && is_all_uppercase(variant) {
                            Err(VariantError::UppercaseNonUnitNeedsName)
                        } else {
                            Ok(
                                ConstPlan {
                                    name: name_for(variant, &a.name),
                                    constructor: Constructor::Tuple,
                                },
                            )
                        }
                    },
                },
                VariantFields::Named(count) => match a.fields {
                    None => Err(VariantError::NoDefaults),
                    Some(EnumFields::Named(_)) => {
                        if a.check_field_count(count) {
                            Err(VariantError::CountMismatch)
                        } else if a.name.is_none() && is_all_uppercase(variant) {
                            Err(VariantError::UppercaseNonUnitNeedsName)
                        } else {
                            Ok(
                                ConstPlan {
                                    name: name_for(variant, &a.name),
                                    constructor: Constructor::Struct,
                                },
                            )
                        }
                    },
                    Some(_) => Err(VariantError::KindMismatch),
                },
            }
        },
    }
}

} // verus!
