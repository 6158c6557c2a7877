use vstd::prelude::*;

use crate::objects::{Device, Driver, DriverPackage};
use crate::pattern::{spec_pattern_hit, PatternCache};

verus! {

/// The vendor and keyword patterns that mark an object as of interest for
/// diagnostic dumping.
pub open spec fn spec_interest_patterns() -> Seq<Seq<char>> {
    seq![
        "10moon"@,
        "Acepen"@,
        "Artisul"@,
        "Digitizer"@,
        "EMR"@,
        "filtr"@,
        "Gaomon"@,
        "Genius"@,
        "Huion"@,
        "Kenting"@,
        "libwdi"@,
        "Lifetec"@,
        "Monoprice"@,
        "Parblo"@,
        "RobotPen"@,
        "Tablet"@,
        "UC[-| ]?Logic"@,
        "UGEE"@,
        "Veikk"@,
        "ViewSonic"@,
        "v\\w*hid"@,
        "Wacom"@,
        "WinUSB"@,
        "XenceLabs"@,
        "XENX"@,
        "XP[-| ]?Pen"@,
    ]
}

/// The patterns that exclude an otherwise interesting object: generic or
/// unrelated hits.
pub open spec fn spec_counter_interest_patterns() -> Seq<Seq<char>> {
    seq!["android"@, "logitech"@]
}

/// The allow-list patterns, as authored.
pub fn interest_patterns() -> (r: Vec<String>)
    ensures
        r.deep_view() == spec_interest_patterns(),
{
    let mut v: Vec<String> = Vec::new();
    v.push(String::from_str("10moon"));
    v.push(String::from_str("Acepen"));
    v.push(String::from_str("Artisul"));
    v.push(String::from_str("Digitizer"));
    v.push(String::from_str("EMR"));
    v.push(String::from_str("filtr"));
    v.push(String::from_str("Gaomon"));
    v.push(String::from_str("Genius"));
    v.push(String::from_str("Huion"));
    v.push(String::from_str("Kenting"));
    v.push(String::from_str("libwdi"));
    v.push(String::from_str("Lifetec"));
    v.push(String::from_str("Monoprice"));
    v.push(String::from_str("Parblo"));
    v.push(String::from_str("RobotPen"));
    v.push(String::from_str("Tablet"));
    v.push(String::from_str("UC[-| ]?Logic"));
    v.push(String::from_str("UGEE"));
    v.push(String::from_str("Veikk"));
    v.push(String::from_str("ViewSonic"));
    v.push(String::from_str("v\\w*hid"));
    v.push(String::from_str("Wacom"));
    v.push(String::from_str("WinUSB"));
    v.push(String::from_str("XenceLabs"));
    v.push(String::from_str("XENX"));
    v.push(String::from_str("XP[-| ]?Pen"));
    proof {
        assert(v.deep_view() =~~= spec_interest_patterns());
    }
    v
}

/// The deny-list patterns, as authored.
pub fn counter_interest_patterns() -> (r: Vec<String>)
    ensures
        r.deep_view() == spec_counter_interest_patterns(),
{
    let mut v: Vec<String> = Vec::new();
    v.push(String::from_str("android"));
    v.push(String::from_str("logitech"));
    proof {
        assert(v.deep_view() =~~= spec_counter_interest_patterns());
    }
    v
}

/// Some pattern of the list is found in the text.
pub open spec fn spec_matches_any(patterns: Seq<Seq<char>>, text: Seq<char>) -> bool {
    exists|i: int| 0 <= i < patterns.len() && spec_pattern_hit(#[trigger] patterns[i], text)
}

/// Whether any pattern of the list is found in the text.
pub fn matches_any(patterns: &Vec<String>, text: &String, cache: &mut PatternCache) -> (r: bool)
    requires
        old(cache).wf(),
    ensures
        final(cache).wf(),
        r == spec_matches_any(patterns.deep_view(), text@),
{
    let n = patterns.len();
    let mut i: usize = 0;
    while i < n
        invariant
            cache.wf(),
            n == patterns@.len(),
            i <= n,
            forall|k: int| 0 <= k < i ==> !spec_pattern_hit(#[trigger] patterns.deep_view()[k], text@),
        decreases n - i,
    {
        if cache.matches(&patterns[i], text) {
            proof {
                assert(patterns.deep_view()[i as int] == patterns@[i as int]@);
            }
            return true;
        }
        i += 1;
    }
    false
}

/// A string is of interest when some allow-list pattern is found in it and
/// no deny-list pattern is; absent data is never of interest.
pub open spec fn spec_is_of_interest(s: Option<Seq<char>>) -> bool {
    match s {
        Option::Some(t) => spec_matches_any(spec_interest_patterns(), t) && !spec_matches_any(
            spec_counter_interest_patterns(),
            t,
        ),
        Option::None => false,
    }
}

/// Classify one descriptive string. The deny list is consulted only once
/// an allow-list match is found.
pub fn is_of_interest(string: Option<&String>, cache: &mut PatternCache) -> (r: bool)
    requires
        old(cache).wf(),
    ensures
        final(cache).wf(),
        r == spec_is_of_interest(
            match string {
                Option::Some(s) => Option::Some(s@),
                Option::None => Option::None,
            },
        ),
{
    let text = match string {
        Option::Some(s) => s,
        Option::None => {
            return false;
        },
    };
    let allow = interest_patterns();
    if matches_any(&allow, text, cache) {
        let deny = counter_interest_patterns();
        !matches_any(&deny, text, cache)
    } else {
        false
    }
}

/// Whether any of the strings drawn from an object's descriptive
/// attributes is of interest.
pub fn is_of_interest_iter(strings: &Vec<String>, cache: &mut PatternCache) -> (r: bool)
    requires
        old(cache).wf(),
    ensures
        final(cache).wf(),
        r == exists|i: int|
            0 <= i < strings@.len() && spec_is_of_interest(
                Option::Some(#[trigger] strings.deep_view()[i]),
            ),
{
    let n = strings.len();
    let mut i: usize = 0;
    while i < n
        invariant
            cache.wf(),
            n == strings@.len(),
            i <= n,
            forall|k: int|
                0 <= k < i ==> !spec_is_of_interest(
                    Option::Some(#[trigger] strings.deep_view()[k]),
                ),
        decreases n - i,
    {
        if is_of_interest(Option::Some(&strings[i]), cache) {
            proof {
                assert(strings.deep_view()[i as int] == strings@[i as int]@);
            }
            return true;
        }
        i += 1;
    }
    false
}

/// What "of interest" means for a device: any of its description,
/// manufacturer, original inf name, or hardware identifiers is.
pub open spec fn spec_device_of_interest(d: &Device) -> bool {
    ||| spec_is_of_interest(d.description.deep_view())
    ||| spec_is_of_interest(d.manufacturer.deep_view())
    ||| spec_is_of_interest(d.inf_original_name.deep_view())
    ||| exists|i: int|
        0 <= i < d.hardware_ids@.len() && spec_is_of_interest(
            Option::Some(#[trigger] d.hardware_ids.deep_view()[i]),
        )
}

pub fn device_is_of_interest(d: &Device, cache: &mut PatternCache) -> (r: bool)
    requires
        old(cache).wf(),
    ensures
        final(cache).wf(),
        r == spec_device_of_interest(d),
{
    if is_of_interest(d.description.as_ref(), cache) {
        return true;
    }
    if is_of_interest(d.manufacturer.as_ref(), cache) {
        return true;
    }
    if is_of_interest(d.inf_original_name.as_ref(), cache) {
        return true;
    }
    is_of_interest_iter(&d.hardware_ids, cache)
}

/// What "of interest" means for a driver: its original inf name or its
/// provider is.
pub open spec fn spec_driver_of_interest(d: &Driver) -> bool {
    ||| spec_is_of_interest(d.inf_original_name.deep_view())
    ||| spec_is_of_interest(d.provider.deep_view())
}

pub fn driver_is_of_interest(d: &Driver, cache: &mut PatternCache) -> (r: bool)
    requires
        old(cache).wf(),
    ensures
        final(cache).wf(),
        r == spec_driver_of_interest(d),
{
    if is_of_interest(d.inf_original_name.as_ref(), cache) {
        return true;
    }
    is_of_interest(d.provider.as_ref(), cache)
}

/// What "of interest" means for a driver package: it has both a display
/// name and an uninstall command, and its display name, publisher or
/// uninstall command is of interest.
pub open spec fn spec_package_of_interest(p: &DriverPackage) -> bool {
    &&& p.display_name is Some
    &&& p.uninstall_string is Some
    &&& {
        ||| spec_is_of_interest(p.display_name.deep_view())
        ||| spec_is_of_interest(p.publisher.deep_view())
        ||| spec_is_of_interest(p.uninstall_string.deep_view())
    }
}

pub fn package_is_of_interest(p: &DriverPackage, cache: &mut PatternCache) -> (r: bool)
    requires
        old(cache).wf(),
    ensures
        final(cache).wf(),
        r == spec_package_of_interest(p),
{
    let has_both = match (&p.display_name, &p.uninstall_string) {
        (Option::Some(_), Option::Some(_)) => true,
        _ => false,
    };
    if !has_both {
        return false;
    }
    if is_of_interest(p.display_name.as_ref(), cache) {
        return true;
    }
    if is_of_interest(p.publisher.as_ref(), cache) {
        return true;
    }
    is_of_interest(p.uninstall_string.as_ref(), cache)
}

/// The pattern an installed third-party inf file name follows.
pub fn oem_inf_pattern() -> (r: String)
    ensures
        r@ == "^oem[0-9]+\\.inf$"@,
{
    String::from_str("^oem[0-9]+\\.inf$")
}

/// Whether a device belongs in the diagnostic dump: its inf name (empty
/// when absent) follows the installed-inf pattern, and the device is of
/// interest.
pub fn device_is_dump_candidate(d: &Device, cache: &mut PatternCache) -> (r: bool)
    requires
        old(cache).wf(),
    ensures
        final(cache).wf(),
        r == (spec_pattern_hit(
            "^oem[0-9]+\\.inf$"@,
            match d.inf_name {
                Option::Some(n) => n@,
                Option::None => Seq::<char>::empty(),
            },
        ) && spec_device_of_interest(d)),
{
    let pattern = oem_inf_pattern();
    let named = match &d.inf_name {
        Option::Some(n) => cache.matches(&pattern, n),
        Option::None => {
            let empty = String::new();
            cache.matches(&pattern, &empty)
        },
    };
    if !named {
        return false;
    }
    device_is_of_interest(d, cache)
}

} // verus!
