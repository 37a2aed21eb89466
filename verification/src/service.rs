//! The service API: password generation and image endpoints.

use vstd::prelude::*;
use vstd::view::View as _;
use crate::Error;
use crate::crud::{Request, Verb};
use crate::json::{JsonValue, lookup_first};
use crate::text::dec_digits;

verus! {

/// Which device a preview image is rendered for.
#[derive(Clone, Copy, Debug, PartialEq, Eq, Structural)]
pub enum View {
    Desktop,
    Mobile,
}

/// The wire name of a view.
pub open spec fn view_name(v: View) -> Seq<char> {
    match v {
        View::Desktop => "desktop"@,
        View::Mobile => "mobile"@,
    }
}

impl View {
    /// The wire name of this view.
    pub fn as_str(&self) -> (r: &'static str)
        ensures
            r@ == view_name(*self),
    {
        match self {
            View::Desktop => "desktop",
            View::Mobile => "mobile",
        }
    }
}

/// A valid avatar or favicon size: a multiple of eight between 16 and 256
/// pixels.
#[derive(Clone, Copy, Debug)]
pub struct MiniatureSize(u16);

impl MiniatureSize {
    /// The size in pixels.
    pub closed spec fn size_spec(&self) -> u16 {
        self.0
    }

    /// Accepts a size that is a multiple of eight, at least 16 and at most
    /// 256 pixels; rejects every other size.
    pub fn new(size: u16) -> (r: Option<MiniatureSize>)
        ensures
            r is Some <==> (size % 8 == 0 && 16 <= size <= 256),
            r matches Some(m) ==> m.size_spec() == size,
    {
        if size % 8 != 0 || size < 16 || size > 256 {
            None
        } else {
            Some(MiniatureSize(size))
        }
    }

    /// The size in pixels.
    pub fn size(&self) -> (r: u16)
        ensures
            r == self.size_spec(),
    {
        self.0
    }
}

impl Default for MiniatureSize {
    /// The default miniature size of 32 pixels.
    fn default() -> (r: MiniatureSize)
        ensures
            r.size_spec() == 32,
    {
        MiniatureSize(32)
    }
}

/// The strength level of a generated password, between one and four.
#[derive(Clone, Copy, Debug)]
pub struct PasswordStrength(u8);

impl PasswordStrength {
    /// The numeric strength level.
    pub closed spec fn value_spec(&self) -> u8 {
        self.0
    }

    #[inline]
    pub fn one() -> (r: PasswordStrength)
        ensures
            r.value_spec() == 1,
    {
        PasswordStrength(1)
    }

    #[inline]
    pub fn two() -> (r: PasswordStrength)
        ensures
            r.value_spec() == 2,
    {
        PasswordStrength(2)
    }

    #[inline]
    pub fn three() -> (r: PasswordStrength)
        ensures
            r.value_spec() == 3,
    {
        PasswordStrength(3)
    }

    #[inline]
    pub fn four() -> (r: PasswordStrength)
        ensures
            r.value_spec() == 4,
    {
        PasswordStrength(4)
    }

    #[inline]
    pub fn value(&self) -> (r: u8)
        ensures
            r == self.value_spec(),
    {
        self.0
    }
}

/// Settings for one password-generation call; every setting is optional and
/// an absent setting is omitted from the wire payload.
#[derive(Debug)]
pub struct GeneratePassword {
    strength: Option<PasswordStrength>,
    numbers: Option<bool>,
    special: Option<bool>,
}

impl GeneratePassword {
    pub closed spec fn strength_spec(&self) -> Option<PasswordStrength> {
        self.strength
    }

    pub closed spec fn numbers_spec(&self) -> Option<bool> {
        self.numbers
    }

    pub closed spec fn special_spec(&self) -> Option<bool> {
        self.special
    }

    /// Settings with nothing set: the server uses its defaults.
    pub fn new() -> (r: GeneratePassword)
        ensures
            r.strength_spec() is None,
            r.numbers_spec() is None,
            r.special_spec() is None,
    {
        GeneratePassword { strength: None, numbers: None, special: None }
    }

    /// A higher value creates a longer and more complex password.
    pub fn strength(self, strength: PasswordStrength) -> (r: GeneratePassword)
        ensures
            r.strength_spec() == Some(strength),
            r.numbers_spec() == self.numbers_spec(),
            r.special_spec() == self.special_spec(),
    {
        GeneratePassword { strength: Some(strength), ..self }
    }

    /// Whether numbers should be used in the password.
    pub fn numbers(self, numbers: bool) -> (r: GeneratePassword)
        ensures
            r.strength_spec() == self.strength_spec(),
            r.numbers_spec() == Some(numbers),
            r.special_spec() == self.special_spec(),
    {
        GeneratePassword { numbers: Some(numbers), ..self }
    }

    /// Whether special characters should be used in the password.
    pub fn special(self, special: bool) -> (r: GeneratePassword)
        ensures
            r.strength_spec() == self.strength_spec(),
            r.numbers_spec() == self.numbers_spec(),
            r.special_spec() == Some(special),
    {
        GeneratePassword { special: Some(special), ..self }
    }

    /// The sparse wire object of these settings: exactly the set options, in
    /// a fixed order, nothing for an absent option.
    pub fn to_json(self) -> (r: JsonValue)
        ensures
            r matches JsonValue::Obj(ps) && {
                let a: int = if self.strength_spec() is Some {
                    1
                } else {
                    0
                };
                let b: int = if self.numbers_spec() is Some {
                    1
                } else {
                    0
                };
                let c: int = if self.special_spec() is Some {
                    1
                } else {
                    0
                };
                &&& ps@.len() == a + b + c
                &&& self.strength_spec() matches Some(st) ==> ps@[0].0@ == "strength"@ && ps@[0].1
                    == JsonValue::UInt(st.value_spec() as u64)
                &&& self.numbers_spec() matches Some(n) ==> ps@[a].0@ == "numbers"@ && ps@[a].1
                    == JsonValue::Bool(n)
                &&& self.special_spec() matches Some(sp) ==> ps@[a + b].0@ == "special"@ && ps@[a
                    + b].1 == JsonValue::Bool(sp)
            },
    {
        let mut ps: Vec<(String, JsonValue)> = Vec::new();
        match self.strength {
            Some(st) => {
                ps.push(("strength".to_owned(), JsonValue::UInt(st.value() as u64)));
            },
            None => {},
        }
        match self.numbers {
            Some(n) => {
                ps.push(("numbers".to_owned(), JsonValue::Bool(n)));
            },
            None => {},
        }
        match self.special {
            Some(sp) => {
                ps.push(("special".to_owned(), JsonValue::Bool(sp)));
            },
            None => {},
        }
        JsonValue::Obj(ps)
    }
}

/// The result of one password-generation call.
#[derive(Debug, PartialEq)]
pub struct GenerateResponse {
    pub password: String,
    pub words: String,
    pub strength: u8,
    pub numbers: bool,
    pub special: bool,
}

/// The payload shape of a password-generation result.
pub open spec fn is_generate_response_shape(v: JsonValue) -> bool {
    &&& v is Obj
    &&& lookup_first(v->Obj_0@, "password"@) matches Some(p) && p is Str
    &&& lookup_first(v->Obj_0@, "words"@) matches Some(w) && w is Str
    &&& lookup_first(v->Obj_0@, "strength"@) matches Some(s) && s is UInt && s->UInt_0 <= 255
    &&& lookup_first(v->Obj_0@, "numbers"@) matches Some(n) && n is Bool
    &&& lookup_first(v->Obj_0@, "special"@) matches Some(sp) && sp is Bool
}

/// Reads a password-generation result.
pub fn generate_response_from_json(v: &JsonValue) -> (r: Result<GenerateResponse, Error>)
    ensures
        r is Ok <==> is_generate_response_shape(*v),
        r matches Ok(g) ==> {
            &&& lookup_first(v->Obj_0@, "password"@) == Some(JsonValue::Str(g.password))
            &&& lookup_first(v->Obj_0@, "words"@) == Some(JsonValue::Str(g.words))
            &&& lookup_first(v->Obj_0@, "strength"@) == Some(JsonValue::UInt(g.strength as u64))
            &&& lookup_first(v->Obj_0@, "numbers"@) == Some(JsonValue::Bool(g.numbers))
            &&& lookup_first(v->Obj_0@, "special"@) == Some(JsonValue::Bool(g.special))
        },
        r is Err ==> r == Err::<GenerateResponse, Error>(Error::Decode),
{
    match v {
        JsonValue::Obj(pairs) => {
            let password = match crate::json::obj_get(pairs, "password") {
                Some(JsonValue::Str(s)) => s.clone(),
                _ => {
                    return Err(Error::Decode);
                },
            };
            let words = match crate::json::obj_get(pairs, "words") {
                Some(JsonValue::Str(s)) => s.clone(),
                _ => {
                    return Err(Error::Decode);
                },
            };
            let strength = match crate::json::obj_get(pairs, "strength") {
                Some(JsonValue::UInt(s)) => {
                    if *s <= 255 {
                        *s as u8
                    } else {
                        return Err(Error::Decode);
                    }
                },
                _ => {
                    return Err(Error::Decode);
                },
            };
            let numbers = match crate::json::obj_get(pairs, "numbers") {
                Some(JsonValue::Bool(b)) => *b,
                _ => {
                    return Err(Error::Decode);
                },
            };
            let special = match crate::json::obj_get(pairs, "special") {
                Some(JsonValue::Bool(b)) => *b,
                _ => {
                    return Err(Error::Decode);
                },
            };
            Ok(GenerateResponse { password, words, strength, numbers, special })
        },
        _ => Err(Error::Decode),
    }
}

/// The password-generation call with explicit settings.
pub fn generate_password_request(settings: GeneratePassword) -> (r: Request)
    ensures
        r.verb == Verb::Post,
        r.path@ == "1.0/service/password"@,
        r.body matches JsonValue::Obj(ps) && {
            let a: int = if settings.strength_spec() is Some {
                1
            } else {
                0
            };
            let b: int = if settings.numbers_spec() is Some {
                1
            } else {
                0
            };
            let c: int = if settings.special_spec() is Some {
                1
            } else {
                0
            };
            &&& ps@.len() == a + b + c
            &&& settings.strength_spec() matches Some(st) ==> ps@[0].0@ == "strength"@ && ps@[0].1
                == JsonValue::UInt(st.value_spec() as u64)
            &&& settings.numbers_spec() matches Some(n) ==> ps@[a].0@ == "numbers"@ && ps@[a].1
                == JsonValue::Bool(n)
            &&& settings.special_spec() matches Some(sp) ==> ps@[a + b].0@ == "special"@ && ps@[a
                + b].1 == JsonValue::Bool(sp)
        },
{
    Request { verb: Verb::Post, path: "1.0/service/password".to_owned(), body: settings.to_json() }
}

/// The password-generation call with the user's stored default settings.
pub fn generate_password_default_request() -> (r: Request)
    ensures
        r.verb == Verb::Get,
        r.path@ == "1.0/service/password"@,
        r.body == JsonValue::Null,
{
    Request { verb: Verb::Get, path: "1.0/service/password".to_owned(), body: JsonValue::Null }
}

/// The path of the avatar image of a user, at the given size.
pub fn avatar_path(user: &str, size: &MiniatureSize) -> (r: String)
    ensures
        r@ == "1.0/service/avatar/"@ + user@ + "/"@ + dec_digits(size.size_spec() as int),
{
    let mut s = "1.0/service/avatar/".to_owned();
    s.append(user);
    s.append("/");
    let digits = crate::text::u64_to_dec(size.size() as u64);
    s.append(digits.as_str());
    proof {
        assert(s@ =~= "1.0/service/avatar/"@ + user@ + "/"@ + dec_digits(size.size_spec() as int));
    }
    s
}

/// The path of the favicon image of a domain, at the given size.
pub fn favicon_path(domain: &str, size: &MiniatureSize) -> (r: String)
    ensures
        r@ == "1.0/service/favicon/"@ + domain@ + "/"@ + dec_digits(size.size_spec() as int),
{
    let mut s = "1.0/service/favicon/".to_owned();
    s.append(domain);
    s.append("/");
    let digits = crate::text::u64_to_dec(size.size() as u64);
    s.append(digits.as_str());
    proof {
        assert(s@ =~= "1.0/service/favicon/"@ + domain@ + "/"@ + dec_digits(
            size.size_spec() as int,
        ));
    }
    s
}

/// The width or height range of a preview request, after defaulting.
pub open spec fn preview_dim(dim: Option<String>, default: Seq<char>) -> Seq<char> {
    match dim {
        Some(d) => d@,
        None => default,
    }
}

/// The path of the preview image of a domain.  The view defaults to
/// desktop, the width to 640 and the height to the open range above 360.
pub fn preview_path(
    domain: &str,
    view: Option<View>,
    width: Option<String>,
    height: Option<String>,
) -> (r: String)
    ensures
        r@ == "1.0/service/preview/"@ + domain@ + "/"@ + (match view {
            Some(v) => view_name(v),
            None => view_name(View::Desktop),
        }) + "/"@ + preview_dim(width, "640"@) + "/"@ + preview_dim(height, "360..."@),
{
    let view_str = match view {
        Some(v) => v.as_str(),
        None => View::Desktop.as_str(),
    };
    let width_str = match width {
        Some(w) => w,
        None => "640".to_owned(),
    };
    let height_str = match height {
        Some(h) => h,
        None => "360...".to_owned(),
    };
    let mut s = "1.0/service/preview/".to_owned();
    s.append(domain);
    s.append("/");
    s.append(view_str);
    s.append("/");
    s.append(width_str.as_str());
    s.append("/");
    s.append(height_str.as_str());
    s
}

} // verus!
