//! Named password alphabets and the template registry.

use vstd::prelude::*;
use vstd::string::*;

verus! {

/// A named, ordered password alphabet.
pub struct Template {
    pub name: String,
    pub chars: Vec<char>,
}

/// The character sequence of the built-in "All" template. Its exact order
/// is part of the derivation: it fixes the byte-to-character mapping.
pub open spec fn all_alphabet() -> Seq<char> {
    "AEIOUaeiouBCDFGHJKLMNPQRSTVWXYZbcdfghjklmnpqrstvwxyz0123456789!@#$%^&*()[]{}<>"@
}

/// The character sequence of the built-in "Alphanumeric" template.
pub open spec fn alphanumeric_alphabet() -> Seq<char> {
    "AEIOUaeiouBCDFGHJKLMNPQRSTVWXYZbcdfghjklmnpqrstvwxyz0123456789"@
}

/// The alphabet of the first template with the given name, if any.
pub open spec fn template_chars(templates: Seq<Template>, name: Seq<char>) -> Option<Seq<char>>
    decreases templates.len(),
{
    if templates.len() == 0 {
        None
    } else if templates[0].name@ == name {
        Some(templates[0].chars@)
    } else {
        template_chars(templates.drop_first(), name)
    }
}

/// Collects the characters of a string slice into a vector.
pub(crate) fn str_chars(s: &str) -> (r: Vec<char>)
    ensures
        r@ == s@,
{
    let mut r: Vec<char> = Vec::new();
    let n = s.unicode_len();
    for i in 0..n
        invariant
            n == s@.len(),
            r@ == s@.take(i as int),
    {
        r.push(s.get_char(i));
        proof {
            assert(s@.take(i + 1) =~= s@.take(i as int).push(s@[i as int]));
        }
    }
    proof {
        assert(s@.take(n as int) =~= s@);
    }
    r
}

/// Builds the two built-in templates, "All" first.
pub(crate) fn builtin_templates() -> (r: Vec<Template>)
    ensures
        r@.len() == 2,
        r@[0].name@ == "All"@,
        r@[0].chars@ == all_alphabet(),
        r@[1].name@ == "Alphanumeric"@,
        r@[1].chars@ == alphanumeric_alphabet(),
        all_alphabet().len() == 78,
        alphanumeric_alphabet().len() == 62,
{
    proof {
        reveal_strlit("AEIOUaeiouBCDFGHJKLMNPQRSTVWXYZbcdfghjklmnpqrstvwxyz0123456789!@#$%^&*()[]{}<>");
        reveal_strlit("AEIOUaeiouBCDFGHJKLMNPQRSTVWXYZbcdfghjklmnpqrstvwxyz0123456789");
    }
    let mut r: Vec<Template> = Vec::new();
    r.push(
        Template {
            name: String::from_str("All"),
            chars: str_chars(
                "AEIOUaeiouBCDFGHJKLMNPQRSTVWXYZbcdfghjklmnpqrstvwxyz0123456789!@#$%^&*()[]{}<>",
            ),
        },
    );
    r.push(
        Template {
            name: String::from_str("Alphanumeric"),
            chars: str_chars("AEIOUaeiouBCDFGHJKLMNPQRSTVWXYZbcdfghjklmnpqrstvwxyz0123456789"),
        },
    );
    r
}

/// Looks up a template by name; returns the first registered match.
pub fn find_template<'a>(templates: &'a Vec<Template>, name: &str) -> (r: Option<
    &'a Vec<char>,
>)
    ensures
        match r {
            Some(v) => template_chars(templates@, name@) == Some(v@),
            None => template_chars(templates@, name@) is None,
        },
{
    let name_string = String::from_str(name);
    let n = templates.len();
    proof {
        assert(templates@.skip(0) =~= templates@);
    }
    for i in 0..n
        invariant
            n == templates@.len(),
            name_string@ == name@,
            template_chars(templates@, name@) == template_chars(
                templates@.skip(i as int),
                name@,
            ),
    {
        if templates[i].name == name_string {
            proof {
                assert(templates@.skip(i as int)[0] == templates@[i as int]);
            }
            return Some(&templates[i].chars);
        }
        proof {
            assert(templates@.skip(i as int).drop_first() =~= templates@.skip(i + 1));
            assert(templates@.skip(i as int)[0] == templates@[i as int]);
        }
    }
    proof {
        assert(templates@.skip(n as int) =~= Seq::<Template>::empty());
    }
    None
}

} // verus!
