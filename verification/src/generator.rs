//! The site password deriver: per-site settings, the keyed-hash binding of
//! the master key, and the mapping of digests into password alphabets.

use vstd::prelude::*;
use vstd::string::*;
use vstd::utf8::*;
use crate::alphabet::{Template, all_alphabet, alphanumeric_alphabet, template_chars,
    builtin_templates, find_template};
use crate::crypto::{scrypt_stretched, hmac_sha512, hmac_sha3_512, stretch_passphrase,
    hmac_sha512_digest, hmac_sha3_512_digest};
use crate::text::{seed_chars, build_seed, push_char};

verus! {

/// The errors a generator can report.
#[derive(Clone, Copy, Debug, PartialEq, Eq, Structural)]
pub enum PasswordError {
    /// The master-key stretch rejected its parameters or failed internally.
    KeyDerivation,
    /// The algorithm selector names no supported hash primitive.
    UnsupportedAlgorithm,
    /// The requested template name is absent from the registry.
    TemplateNotFound,
    /// The selected alphabet holds no characters.
    EmptyAlphabet,
    /// The requested length exceeds one digest's worth of characters.
    InvalidLength,
}

impl PasswordError {
    /// A short description, for hosts that print errors.
    pub fn describe(&self) -> (r: String)
        ensures
            (*self is KeyDerivation) ==> r@ == "Master key derivation failed."@,
            (*self is UnsupportedAlgorithm) ==> r@ == "Invalid hash algorithm!"@,
            (*self is TemplateNotFound) ==> r@ == "Password template not found."@,
            (*self is EmptyAlphabet) ==> r@ == "Password template is empty."@,
            (*self is InvalidLength) ==> r@ == "Requested password length is too large."@,
    {
        match self {
            PasswordError::KeyDerivation => String::from_str("Master key derivation failed."),
            PasswordError::UnsupportedAlgorithm => String::from_str("Invalid hash algorithm!"),
            PasswordError::TemplateNotFound => String::from_str("Password template not found."),
            PasswordError::EmptyAlphabet => String::from_str("Password template is empty."),
            PasswordError::InvalidLength => String::from_str(
                "Requested password length is too large.",
            ),
        }
    }
}

/// The two supported keyed-hash primitives.
#[derive(Clone, Copy, Debug, PartialEq, Eq, Structural)]
pub enum PasswordGeneratorAlgo {
    Sha512,
    Sha3,
}

impl PasswordGeneratorAlgo {
    /// Parses the algorithm selector a host hands in.
    pub fn from_name(name: &str) -> (r: Result<Self, PasswordError>)
        ensures
            name@ == "Sha512"@ ==> r == Ok::<Self, PasswordError>(PasswordGeneratorAlgo::Sha512),
            name@ == "Sha3"@ ==> r == Ok::<Self, PasswordError>(PasswordGeneratorAlgo::Sha3),
            name@ != "Sha512"@ && name@ != "Sha3"@ ==> r == Err::<Self, PasswordError>(
                PasswordError::UnsupportedAlgorithm,
            ),
    {
        proof {
            reveal_strlit("Sha512");
            reveal_strlit("Sha3");
            assert("Sha512"@.len() == 6);
            assert("Sha3"@.len() == 4);
            assert("Sha512"@ != "Sha3"@);
        }
        let name_string = String::from_str(name);
        if name_string == String::from_str("Sha512") {
            Ok(PasswordGeneratorAlgo::Sha512)
        } else if name_string == String::from_str("Sha3") {
            Ok(PasswordGeneratorAlgo::Sha3)
        } else {
            Err(PasswordError::UnsupportedAlgorithm)
        }
    }
}

/// Per-site settings: the counter, the template name and the output length.
pub struct Site {
    pub counter: u32,
    pub template_name: String,
    pub length: u32,
}

impl Site {
    pub fn new(counter: u32, template_name: String, length: u32) -> (r: Site)
        ensures
            r.counter == counter,
            r.template_name@ == template_name@,
            r.length == length,
    {
        Site { counter, template_name, length }
    }
}

impl Default for Site {
    /// Counter 0, template "All", the full 64 characters of one digest.
    fn default() -> (r: Self)
        ensures
            r.counter == 0,
            r.template_name@ == "All"@,
            r.length == 64,
    {
        Site { counter: 0, template_name: String::from_str("All"), length: 64 }
    }
}

/// Characters selected per digest byte: byte `b` picks
/// `alphabet[b % alphabet.len()]`, in digest order.
pub open spec fn mapped_chars(digest: Seq<u8>, alphabet: Seq<char>) -> Seq<char> {
    Seq::new(digest.len(), |i: int| alphabet[digest[i] as int % alphabet.len() as int])
}

/// The derived password: the mapped digest, truncated to `length` characters.
pub open spec fn password_chars(digest: Seq<u8>, alphabet: Seq<char>, length: int) -> Seq<char> {
    mapped_chars(digest, alphabet).take(length)
}

/// The digest of one site derivation: the keyed hash, under the master key,
/// of the UTF-8 bytes of the seed string.
pub open spec fn site_digest(
    algo: PasswordGeneratorAlgo,
    key: Seq<u8>,
    name: Seq<char>,
    counter: u32,
) -> Seq<u8> {
    match algo {
        PasswordGeneratorAlgo::Sha512 => hmac_sha512(key, encode_utf8(seed_chars(name, counter))),
        PasswordGeneratorAlgo::Sha3 => hmac_sha3_512(key, encode_utf8(seed_chars(name, counter))),
    }
}

/// Law: derivation is deterministic. Two passwords derived from the same
/// algorithm, master key, site name, counter, alphabet and length are equal.
pub proof fn lemma_derive_deterministic(
    algo: PasswordGeneratorAlgo,
    key: Seq<u8>,
    name: Seq<char>,
    counter: u32,
    alphabet: Seq<char>,
    length: int,
    p1: Seq<char>,
    p2: Seq<char>,
)
    requires
        p1 == password_chars(site_digest(algo, key, name, counter), alphabet, length),
        p2 == password_chars(site_digest(algo, key, name, counter), alphabet, length),
    ensures
        p1 == p2,
{
}

/// Law: alphabet containment. Every character of a derived password is a
/// member of the alphabet it was derived from.
pub proof fn lemma_password_in_alphabet(digest: Seq<u8>, alphabet: Seq<char>, length: int)
    requires
        alphabet.len() > 0,
        0 <= length <= digest.len(),
    ensures
        forall|i: int|
            0 <= i < length ==> alphabet.contains(
                #[trigger] password_chars(digest, alphabet, length)[i],
            ),
{
    assert forall|i: int| 0 <= i < length implies alphabet.contains(
        #[trigger] password_chars(digest, alphabet, length)[i],
    ) by {
        let idx = digest[i] as int % alphabet.len() as int;
        assert(0 <= idx < alphabet.len()) by (nonlinear_arith)
            requires
                alphabet.len() > 0,
                0 <= digest[i] as int,
                idx == digest[i] as int % alphabet.len() as int,
        ;
        assert(password_chars(digest, alphabet, length)[i] == alphabet[idx]);
    }
}

/// The keyed hasher: the master key bound to one hash primitive. Each
/// derivation runs one complete update/finalize cycle, so the accumulator is
/// always left ready for the next call.
pub struct PasswordGeneratorHmac {
    algo: PasswordGeneratorAlgo,
    master_key: Vec<u8>,
}

impl PasswordGeneratorHmac {
    /// The hash primitive this hasher was bound to.
    pub closed spec fn algo_spec(&self) -> PasswordGeneratorAlgo {
        self.algo
    }

    /// The bytes of the bound master key.
    pub closed spec fn key_spec(&self) -> Seq<u8> {
        self.master_key@
    }

    /// The master key is one full 64-byte digest wide.
    pub open spec fn wf(&self) -> bool {
        self.key_spec().len() == 64
    }

    /// Stretches the passphrase into the master key and binds it to the
    /// chosen hash primitive. At the fixed stretch parameters this succeeds
    /// for every passphrase, the empty one included.
    pub fn new(algo: PasswordGeneratorAlgo, key: &str) -> (r: Result<Self, PasswordError>)
        ensures
            r is Ok,
            r matches Ok(h) ==> h.algo_spec() == algo && h.key_spec() == scrypt_stretched(
                encode_utf8(key@),
            ) && h.wf(),
    {
        let passphrase = key.as_bytes_vec();
        match stretch_passphrase(&passphrase) {
            Some(master_key) => Ok(PasswordGeneratorHmac { algo, master_key }),
            None => Err(PasswordError::KeyDerivation),
        }
    }

    /// Derives one site password: keyed-hashes the seed built from the site
    /// name and counter, maps every digest byte into the alphabet, and
    /// truncates to the requested length.
    pub fn create_site_password(
        &mut self,
        site_name: &str,
        counter: u32,
        pass_chars: &Vec<char>,
        length: u32,
    ) -> (r: Result<String, PasswordError>)
        ensures
            *final(self) == *old(self),
            match r {
                Ok(p) => pass_chars@.len() > 0 && length <= 64 && p@ == password_chars(
                    site_digest(old(self).algo_spec(), old(self).key_spec(), site_name@, counter),
                    pass_chars@,
                    length as int,
                ) && p@.len() == length && site_digest(
                    old(self).algo_spec(),
                    old(self).key_spec(),
                    site_name@,
                    counter,
                ).len() == 64,
                Err(e) => if pass_chars@.len() == 0 {
                    e == PasswordError::EmptyAlphabet
                } else {
                    length > 64 && e == PasswordError::InvalidLength
                },
            },
    {
        let seed = build_seed(site_name, counter);
        let msg = seed.as_str().as_bytes_vec();
        let digest = match self.algo {
            PasswordGeneratorAlgo::Sha512 => hmac_sha512_digest(&self.master_key, &msg),
            PasswordGeneratorAlgo::Sha3 => hmac_sha3_512_digest(&self.master_key, &msg),
        };
        if pass_chars.len() == 0 {
            return Err(PasswordError::EmptyAlphabet);
        }
        if length > 64 {
            return Err(PasswordError::InvalidLength);
        }

        let mut mapped: Vec<char> = Vec::new();
        let dn = digest.len();
        for i in 0..dn
            invariant
                dn == digest@.len(),
                pass_chars@.len() > 0,
                mapped@ == mapped_chars(digest@, pass_chars@).take(i as int),
        {
            let idx = (digest[i] as usize) % pass_chars.len();
            mapped.push(pass_chars[idx]);
            proof {
                assert(mapped_chars(digest@, pass_chars@).take(i + 1) =~= mapped_chars(
                    digest@,
                    pass_chars@,
                ).take(i as int).push(mapped_chars(digest@, pass_chars@)[i as int]));
            }
        }
        proof {
            assert(mapped_chars(digest@, pass_chars@).take(dn as int) =~= mapped_chars(
                digest@,
                pass_chars@,
            ));
        }
        mapped.truncate(length as usize);

        let mut password = String::new();
        let pn = mapped.len();
        for i in 0..pn
            invariant
                pn == mapped@.len(),
                password@ == mapped@.take(i as int),
        {
            push_char(&mut password, mapped[i]);
            proof {
                assert(mapped@.take(i + 1) =~= mapped@.take(i as int).push(mapped@[i as int]));
            }
        }
        proof {
            assert(mapped@.take(pn as int) =~= mapped@);
            assert(mapped@ =~= password_chars(
                site_digest(self.algo_spec(), self.key_spec(), site_name@, counter),
                pass_chars@,
                length as int,
            ));
        }
        Ok(password)
    }
}

/// The view of the optional per-site settings overlay.
pub open spec fn sites_view(sites: Option<Vec<(String, Site)>>) -> Option<Seq<(String, Site)>> {
    match sites {
        Some(v) => Some(v@),
        None => None,
    }
}

/// The settings of the first entry with the given site name, if any.
pub open spec fn site_for(sites: Seq<(String, Site)>, name: Seq<char>) -> Option<Site>
    decreases sites.len(),
{
    if sites.len() == 0 {
        None
    } else if sites[0].0@ == name {
        Some(sites[0].1)
    } else {
        site_for(sites.drop_first(), name)
    }
}

/// The counter used for a site: its overlay entry's, or 0.
pub open spec fn effective_counter(sites: Option<Seq<(String, Site)>>, name: Seq<char>) -> u32 {
    match sites {
        Some(m) => match site_for(m, name) {
            Some(s) => s.counter,
            None => 0,
        },
        None => 0,
    }
}

/// The template name used for a site: its overlay entry's, or "All".
pub open spec fn effective_template_name(
    sites: Option<Seq<(String, Site)>>,
    name: Seq<char>,
) -> Seq<char> {
    match sites {
        Some(m) => match site_for(m, name) {
            Some(s) => s.template_name@,
            None => "All"@,
        },
        None => "All"@,
    }
}

/// The output length used for a site: its overlay entry's, or 64.
pub open spec fn effective_length(sites: Option<Seq<(String, Site)>>, name: Seq<char>) -> u32 {
    match sites {
        Some(m) => match site_for(m, name) {
            Some(s) => s.length,
            None => 64,
        },
        None => 64,
    }
}

/// Looks up a site's settings; returns the first entry with that name.
fn find_site<'a>(sites: &'a Vec<(String, Site)>, name: &str) -> (r: Option<&'a Site>)
    ensures
        match r {
            Some(s) => site_for(sites@, name@) == Some(*s),
            None => site_for(sites@, name@) is None,
        },
{
    let name_string = String::from_str(name);
    let n = sites.len();
    proof {
        assert(sites@.skip(0) =~= sites@);
    }
    for i in 0..n
        invariant
            n == sites@.len(),
            name_string@ == name@,
            site_for(sites@, name@) == site_for(sites@.skip(i as int), name@),
    {
        if sites[i].0 == name_string {
            proof {
                assert(sites@.skip(i as int)[0] == sites@[i as int]);
            }
            return Some(&sites[i].1);
        }
        proof {
            assert(sites@.skip(i as int).drop_first() =~= sites@.skip(i + 1));
            assert(sites@.skip(i as int)[0] == sites@[i as int]);
        }
    }
    proof {
        assert(sites@.skip(n as int) =~= Seq::<(String, Site)>::empty());
    }
    None
}

/// The password generator: a keyed hasher, the template registry, and an
/// optional read-only overlay of per-site settings.
pub struct PasswordGenerator {
    hmac: PasswordGeneratorHmac,
    pub templates: Vec<Template>,
    sites_settings: Option<Vec<(String, Site)>>,
}

impl PasswordGenerator {
    /// The hash primitive the generator was built with.
    pub closed spec fn algo_spec(&self) -> PasswordGeneratorAlgo {
        self.hmac.algo_spec()
    }

    /// The bytes of the stretched master key.
    pub closed spec fn key_spec(&self) -> Seq<u8> {
        self.hmac.key_spec()
    }

    /// The per-site settings overlay.
    pub closed spec fn sites_spec(&self) -> Option<Seq<(String, Site)>> {
        sites_view(self.sites_settings)
    }

    /// The template registry's contents.
    pub closed spec fn templates_spec(&self) -> Seq<Template> {
        self.templates@
    }

    /// Stretches the passphrase and sets up the built-in templates. At the
    /// fixed stretch parameters construction succeeds for every passphrase.
    pub fn new(
        algo: PasswordGeneratorAlgo,
        key: &str,
        site_settings: Option<Vec<(String, Site)>>,
    ) -> (r: Result<Self, PasswordError>)
        ensures
            r is Ok,
            r matches Ok(g) ==> {
                &&& g.algo_spec() == algo
                &&& g.key_spec() == scrypt_stretched(encode_utf8(key@))
                &&& g.key_spec().len() == 64
                &&& g.sites_spec() == sites_view(site_settings)
                &&& g.templates_spec().len() == 2
                &&& g.templates_spec()[0].name@ == "All"@
                &&& g.templates_spec()[0].chars@ == all_alphabet()
                &&& g.templates_spec()[1].name@ == "Alphanumeric"@
                &&& g.templates_spec()[1].chars@ == alphanumeric_alphabet()
                &&& template_chars(g.templates_spec(), "All"@) == Some(all_alphabet())
                &&& template_chars(g.templates_spec(), "Alphanumeric"@) == Some(alphanumeric_alphabet())
                &&& all_alphabet().len() == 78
                &&& alphanumeric_alphabet().len() == 62
            },
    {
        let hmac = match PasswordGeneratorHmac::new(algo, key) {
            Ok(h) => h,
            Err(e) => return Err(e),
        };
        let templates = builtin_templates();
        proof {
            reveal_strlit("All");
            reveal_strlit("Alphanumeric");
            assert("All"@.len() == 3);
            assert("Alphanumeric"@.len() == 12);
            assert("All"@ != "Alphanumeric"@);
            let ts = templates@;
            assert(ts.drop_first()[0] == ts[1]);
            assert(ts.drop_first().len() == 1);
            assert(template_chars(ts.drop_first(), "Alphanumeric"@) == Some(ts[1].chars@));
            assert(template_chars(ts, "Alphanumeric"@) == Some(alphanumeric_alphabet()));
        }
        Ok(PasswordGenerator { hmac, templates, sites_settings: site_settings })
    }

    /// The template names, in registry order.
    pub fn template_names(&self) -> (r: Vec<String>)
        ensures
            r@.len() == self.templates_spec().len(),
            forall|i: int| 0 <= i < r@.len() ==> r@[i]@ == self.templates_spec()[i].name@,
    {
        let mut r: Vec<String> = Vec::new();
        let n = self.templates.len();
        for i in 0..n
            invariant
                n == self.templates@.len(),
                r@.len() == i,
                forall|j: int| 0 <= j < i ==> r@[j]@ == self.templates@[j].name@,
        {
            r.push(self.templates[i].name.clone());
        }
        r
    }

    /// Derives the password for a site under its settings from the overlay,
    /// or under the defaults where the overlay has no entry for it.
    pub fn create_site_password(&mut self, site_name: &str) -> (r: Result<String, PasswordError>)
        ensures
            *final(self) == *old(self),
            ({
                let counter = effective_counter(old(self).sites_spec(), site_name@);
                let template_name = effective_template_name(old(self).sites_spec(), site_name@);
                let length = effective_length(old(self).sites_spec(), site_name@);
                match template_chars(old(self).templates_spec(), template_name) {
                    None => r == Err::<String, PasswordError>(PasswordError::TemplateNotFound),
                    Some(alphabet) => match r {
                        Ok(p) => alphabet.len() > 0 && length <= 64 && p@ == password_chars(
                            site_digest(
                                old(self).algo_spec(),
                                old(self).key_spec(),
                                site_name@,
                                counter,
                            ),
                            alphabet,
                            length as int,
                        ) && p@.len() == length && site_digest(
                            old(self).algo_spec(),
                            old(self).key_spec(),
                            site_name@,
                            counter,
                        ).len() == 64,
                        Err(e) => if alphabet.len() == 0 {
                            e == PasswordError::EmptyAlphabet
                        } else {
                            length > 64 && e == PasswordError::InvalidLength
                        },
                    },
                }
            }),
    {
        let default_site = Site::default();
        let site: &Site = match &self.sites_settings {
            Some(m) => match find_site(m, site_name) {
                Some(s) => s,
                None => &default_site,
            },
            None => &default_site,
        };
        let counter = site.counter;
        let length = site.length;
        let pass_chars = match find_template(&self.templates, site.template_name.as_str()) {
            Some(v) => v,
            None => return Err(PasswordError::TemplateNotFound),
        };
        self.hmac.create_site_password(site_name, counter, pass_chars, length)
    }

    /// Derives a password for explicitly given counter, template and length,
    /// bypassing the overlay.
    pub fn create_site_password_raw(
        &mut self,
        site_name: &str,
        counter: u32,
        template_name: &str,
        length: u32,
    ) -> (r: Result<String, PasswordError>)
        ensures
            *final(self) == *old(self),
            match template_chars(old(self).templates_spec(), template_name@) {
                None => r == Err::<String, PasswordError>(PasswordError::TemplateNotFound),
                Some(alphabet) => match r {
                    Ok(p) => alphabet.len() > 0 && length <= 64 && p@ == password_chars(
                        site_digest(
                            old(self).algo_spec(),
                            old(self).key_spec(),
                            site_name@,
                            counter,
                        ),
                        alphabet,
                        length as int,
                    ) && p@.len() == length && site_digest(
                        old(self).algo_spec(),
                        old(self).key_spec(),
                        site_name@,
                        counter,
                    ).len() == 64,
                    Err(e) => if alphabet.len() == 0 {
                        e == PasswordError::EmptyAlphabet
                    } else {
                        length > 64 && e == PasswordError::InvalidLength
                    },
                },
            },
    {
        let pass_chars = match find_template(&self.templates, template_name) {
            Some(v) => v,
            None => return Err(PasswordError::TemplateNotFound),
        };
        self.hmac.create_site_password(site_name, counter, pass_chars, length)
    }
}

} // verus!
