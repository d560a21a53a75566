use vstd::prelude::*;
use vstd::string::StringExecFns;

use crate::error::LookupError;
use crate::json::{FieldModel, JsonField, distinct_names, json_members, members_view, read_members};

verus! {

/// One geolocation answer. Each field is absent where the service left it
/// out or sent `null`.
#[derive(Debug, Clone)]
pub struct Location {
    /// The IP the lookup was made for.
    pub ip: Option<String>,
    /// The city the IP was located in.
    pub city: Option<String>,
    /// The country of that city.
    pub country: Option<String>,
    /// The continent of that city.
    pub continent: Option<String>,
}

/// The mathematical value of a `Location`.
pub struct LocationModel {
    pub ip: Option<Seq<char>>,
    pub city: Option<Seq<char>>,
    pub country: Option<Seq<char>>,
    pub continent: Option<Seq<char>>,
}

/// The text of an optional string.
pub open spec fn opt_text(o: Option<String>) -> Option<Seq<char>> {
    match o {
        Some(s) => Some(s@),
        None => None,
    }
}

impl View for Location {
    type V = LocationModel;

    open spec fn view(&self) -> LocationModel {
        LocationModel {
            ip: opt_text(self.ip),
            city: opt_text(self.city),
            country: opt_text(self.country),
            continent: opt_text(self.continent),
        }
    }
}

pub open spec fn ip_name() -> Seq<char> {
    seq!['i', 'p']
}

pub open spec fn city_name() -> Seq<char> {
    seq!['c', 'i', 't', 'y']
}

pub open spec fn country_name() -> Seq<char> {
    seq!['c', 'o', 'u', 'n', 't', 'r', 'y']
}

pub open spec fn continent_name() -> Seq<char> {
    seq!['c', 'o', 'n', 't', 'i', 'n', 'e', 'n', 't']
}

/// The string that a member value is, if it is one.
pub open spec fn text_of(v: FieldModel) -> Option<Seq<char>> {
    match v {
        FieldModel::Text(s) => Some(s),
        _ => None,
    }
}

/// The string that the member `name` holds, where it is a string; `None`
/// where it is missing or `null`. Of two members with one name the later
/// counts.
pub open spec fn field_text(ms: Seq<(Seq<char>, FieldModel)>, name: Seq<char>) -> Option<
    Seq<char>,
>
    decreases ms.len(),
{
    if ms.len() == 0 {
        None
    } else if ms.last().0 == name {
        text_of(ms.last().1)
    } else {
        field_text(ms.drop_last(), name)
    }
}

/// The member `name` is missing, `null` or a string.
pub open spec fn field_fits(ms: Seq<(Seq<char>, FieldModel)>, name: Seq<char>) -> bool {
    forall|i: int| 0 <= i < ms.len() && #[trigger] ms[i].0 == name ==> !(ms[i].1 is Other)
}

/// Each of the four members of a location is missing, `null` or a string;
/// other members may hold anything.
pub open spec fn location_fits(ms: Seq<(Seq<char>, FieldModel)>) -> bool {
    field_fits(ms, ip_name()) && field_fits(ms, city_name()) && field_fits(ms, country_name())
        && field_fits(ms, continent_name())
}

/// The location that the members of an object describe.
pub open spec fn location_of(ms: Seq<(Seq<char>, FieldModel)>) -> LocationModel {
    LocationModel {
        ip: field_text(ms, ip_name()),
        city: field_text(ms, city_name()),
        country: field_text(ms, country_name()),
        continent: field_text(ms, continent_name()),
    }
}

/// No member is named `name`.
pub open spec fn member_missing(ms: Seq<(Seq<char>, FieldModel)>, name: Seq<char>) -> bool {
    forall|i: int| 0 <= i < ms.len() ==> #[trigger] ms[i].0 != name
}

/// The member `name` holds `v`.
pub open spec fn member_is(ms: Seq<(Seq<char>, FieldModel)>, name: Seq<char>, v: FieldModel) -> bool {
    exists|i: int| 0 <= i < ms.len() && #[trigger] ms[i] == (name, v)
}

/// `f` is what the member `name` gives: nothing where it is missing or
/// `null`, its string where it is one.
pub open spec fn decoded_as(
    ms: Seq<(Seq<char>, FieldModel)>,
    name: Seq<char>,
    f: Option<Seq<char>>,
) -> bool {
    &&& (f is None <==> (member_missing(ms, name) || member_is(ms, name, FieldModel::Null)))
    &&& forall|s: Seq<char>| #[trigger] member_is(ms, name, FieldModel::Text(s)) ==> f == Some(s)
}

/// Among members with distinct names, the member `name` gives its string
/// where it is one, and nothing where it is missing or `null`.
pub proof fn lemma_field_text(ms: Seq<(Seq<char>, FieldModel)>, name: Seq<char>)
    requires
        distinct_names(ms),
    ensures
        member_missing(ms, name) ==> field_text(ms, name) is None && field_fits(ms, name),
        forall|i: int|
            0 <= i < ms.len() && #[trigger] ms[i].0 == name ==> field_text(ms, name) == text_of(
                ms[i].1,
            ),
    decreases ms.len(),
{
    if ms.len() > 0 {
        let p = ms.drop_last();
        assert(distinct_names(p)) by {
            assert forall|i: int, j: int|
                0 <= i < p.len() && 0 <= j < p.len() && i != j implies #[trigger] p[i].0
                != #[trigger] p[j].0 by {
                assert(p[i] == ms[i] && p[j] == ms[j]);
            }
        }
        lemma_field_text(p, name);
        assert forall|i: int| 0 <= i < ms.len() && #[trigger] ms[i].0 == name implies field_text(
            ms,
            name,
        ) == text_of(ms[i].1) by {
            if i < ms.len() - 1 {
                assert(p[i] == ms[i]);
                assert(ms[ms.len() - 1].0 != ms[i].0);
            }
        }
        if member_missing(ms, name) {
            assert(ms[ms.len() - 1].0 != name);
            assert(member_missing(p, name)) by {
                assert forall|i: int| 0 <= i < p.len() implies #[trigger] p[i].0 != name by {
                    assert(p[i] == ms[i]);
                }
            }
        }
    }
}

/// Decoding an object in which `ip`, `city`, `country` and `continent` are
/// all strings succeeds and yields each string exactly as given.
pub proof fn lemma_typed_decode_recovers_fields(
    body: Seq<char>,
    r: Result<Location, LookupError>,
    ip: Seq<char>,
    city: Seq<char>,
    country: Seq<char>,
    continent: Seq<char>,
)
    requires
        json_members(body) matches Some(ms) && distinct_names(ms) && member_is(
            ms,
            ip_name(),
            FieldModel::Text(ip),
        ) && member_is(ms, city_name(), FieldModel::Text(city)) && member_is(
            ms,
            country_name(),
            FieldModel::Text(country),
        ) && member_is(ms, continent_name(), FieldModel::Text(continent)),
        location_result(body, r),
    ensures
        r matches Ok(loc) && loc@ == (LocationModel {
            ip: Some(ip),
            city: Some(city),
            country: Some(country),
            continent: Some(continent),
        }),
{
    let ms = json_members(body)->Some_0;
    lemma_text_member_fits(ms, ip_name(), ip);
    lemma_text_member_fits(ms, city_name(), city);
    lemma_text_member_fits(ms, country_name(), country);
    lemma_text_member_fits(ms, continent_name(), continent);
    lemma_typed_decode_tolerates_missing(body, r);
    assert(member_is(ms, ip_name(), FieldModel::Text(ip)));
    assert(member_is(ms, city_name(), FieldModel::Text(city)));
    assert(member_is(ms, country_name(), FieldModel::Text(country)));
    assert(member_is(ms, continent_name(), FieldModel::Text(continent)));
}

/// Where each of `ip`, `city`, `country` and `continent` is missing, `null`
/// or a string, decoding succeeds: a field is absent exactly where its
/// member is missing or `null`, and holds the member's string otherwise.
pub proof fn lemma_typed_decode_tolerates_missing(body: Seq<char>, r: Result<Location, LookupError>)
    requires
        json_members(body) matches Some(ms) && distinct_names(ms) && location_fits(ms),
        location_result(body, r),
    ensures
        r matches Ok(loc) && {
            let ms = json_members(body)->Some_0;
            &&& decoded_as(ms, ip_name(), loc@.ip)
            &&& decoded_as(ms, city_name(), loc@.city)
            &&& decoded_as(ms, country_name(), loc@.country)
            &&& decoded_as(ms, continent_name(), loc@.continent)
        },
{
    let ms = json_members(body)->Some_0;
    lemma_decoded_as(ms, ip_name());
    lemma_decoded_as(ms, city_name());
    lemma_decoded_as(ms, country_name());
    lemma_decoded_as(ms, continent_name());
}

/// Among members with distinct names, a member that holds a string fits.
proof fn lemma_text_member_fits(ms: Seq<(Seq<char>, FieldModel)>, name: Seq<char>, s: Seq<char>)
    requires
        distinct_names(ms),
        member_is(ms, name, FieldModel::Text(s)),
    ensures
        field_fits(ms, name),
{
    let k = choose|k: int| 0 <= k < ms.len() && #[trigger] ms[k] == (name, FieldModel::Text(s));
    assert forall|i: int| 0 <= i < ms.len() && #[trigger] ms[i].0 == name implies !(
    ms[i].1 is Other) by {
        assert(ms[k].0 == name);
    }
}

/// Among members with distinct names whose member `name` fits, `field_text`
/// gives what that member decodes as.
proof fn lemma_decoded_as(ms: Seq<(Seq<char>, FieldModel)>, name: Seq<char>)
    requires
        distinct_names(ms),
        field_fits(ms, name),
    ensures
        decoded_as(ms, name, field_text(ms, name)),
{
    lemma_field_text(ms, name);
    if !member_missing(ms, name) {
        let i = choose|i: int| 0 <= i < ms.len() && ms[i].0 == name;
        assert(ms[i].0 == name);
        assert(!(ms[i].1 is Other));
        if ms[i].1 is Null {
            assert(ms[i] == (name, FieldModel::Null));
        }
    }
    assert forall|s: Seq<char>| #[trigger] member_is(ms, name, FieldModel::Text(s)) implies field_text(
        ms,
        name,
    ) == Some(s) by {
        let i = choose|i: int| 0 <= i < ms.len() && #[trigger] ms[i] == (name, FieldModel::Text(s));
        assert(ms[i].0 == name);
    }
    if member_is(ms, name, FieldModel::Null) {
        let i = choose|i: int| 0 <= i < ms.len() && #[trigger] ms[i] == (name, FieldModel::Null);
        assert(ms[i].0 == name);
    }
}

/// What reading a location from the members `ms` yields.
pub open spec fn members_location(ms: Seq<(Seq<char>, FieldModel)>, r: Result<Location, LookupError>) -> bool {
    match r {
        Ok(loc) => location_fits(ms) && loc@ == location_of(ms),
        Err(e) => !location_fits(ms) && e == LookupError::Decode,
    }
}

/// What decoding a body as a location yields.
pub open spec fn location_result(body: Seq<char>, r: Result<Location, LookupError>) -> bool {
    match json_members(body) {
        None => r == Err::<Location, LookupError>(LookupError::Decode),
        Some(ms) => members_location(ms, r),
    }
}

/// The string held by the member `name`; fails with `Decode` where that
/// member is neither `null` nor a string.
fn member_text(ms: &Vec<(String, JsonField)>, name: &String) -> (r: Result<
    Option<String>,
    LookupError,
>)
    ensures
        match r {
            Ok(t) => field_fits(members_view(ms@), name@) && opt_text(t) == field_text(
                members_view(ms@),
                name@,
            ),
            Err(e) => !field_fits(members_view(ms@), name@) && e == LookupError::Decode,
        },
{
    let ghost mv = members_view(ms@);
    let mut found: Option<String> = None;
    let mut i: usize = 0;
    while i < ms.len()
        invariant
            i <= ms.len(),
            mv == members_view(ms@),
            opt_text(found) == field_text(mv.take(i as int), name@),
            forall|j: int| 0 <= j < i && #[trigger] mv[j].0 == name@ ==> !(mv[j].1 is Other),
        decreases ms.len() - i,
    {
        let m = &ms[i];
        proof {
            assert(mv.take(i + 1).drop_last() =~= mv.take(i as int));
            assert(mv.take(i + 1).last() == mv[i as int]);
        }
        if m.0 == *name {
            match &m.1 {
                JsonField::Null => {
                    found = None;
                },
                JsonField::Text(s) => {
                    found = Some(s.clone());
                },
                JsonField::Other => {
                    return Err(LookupError::Decode);
                },
            }
        }
        i += 1;
    }
    proof {
        assert(mv.take(i as int) =~= mv);
    }
    Ok(found)
}

/// Reads a `Location` from the members of a JSON object. Fails with
/// `Decode` where one of `ip`, `city`, `country`, `continent` holds something
/// other than a string or `null`; other members are left aside.
pub fn location_from_members(ms: &Vec<(String, JsonField)>) -> (r: Result<Location, LookupError>)
    ensures
        members_location(members_view(ms@), r),
{
    let ip_key = String::from_str("ip");
    let city_key = String::from_str("city");
    let country_key = String::from_str("country");
    let continent_key = String::from_str("continent");
    proof {
        reveal_strlit("ip");
        reveal_strlit("city");
        reveal_strlit("country");
        reveal_strlit("continent");
        assert(ip_key@ =~= ip_name());
        assert(city_key@ =~= city_name());
        assert(country_key@ =~= country_name());
        assert(continent_key@ =~= continent_name());
    }
    let ip = member_text(ms, &ip_key)?;
    let city = member_text(ms, &city_key)?;
    let country = member_text(ms, &country_key)?;
    let continent = member_text(ms, &continent_key)?;
    Ok(Location { ip, city, country, continent })
}

/// Decodes a response body into a `Location`. Fails with `Decode` where the
/// body is no JSON object, or where one of `ip`, `city`, `country`,
/// `continent` holds something other than a string or `null`.
pub fn decode_location(body: &str) -> (r: Result<Location, LookupError>)
    ensures
        location_result(body@, r),
        json_members(body@) matches Some(ms) ==> distinct_names(ms),
{
    match read_members(body) {
        Some(ms) => location_from_members(&ms),
        None => Err(LookupError::Decode),
    }
}

} // verus!
