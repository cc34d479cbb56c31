//! Performance profiles: the closed, ordered set the firmware knows, their
//! names on the caller's side and their codes on the register side.

use vstd::prelude::*;

verus! {

/// A performance profile of the firmware. The order of the variants is the
/// canonical order: a unit supports a leading part of it.
#[derive(Clone, Copy, Debug, PartialEq, Eq, Structural)]
pub enum PerformanceProfile {
    Balanced,
    Enthusiast,
    Overboost,
}

/// All profiles, in canonical order.
pub open spec fn canonical_profiles() -> Seq<PerformanceProfile> {
    seq![PerformanceProfile::Balanced, PerformanceProfile::Enthusiast, PerformanceProfile::Overboost]
}

/// The profiles a unit supports when it reports `count` of them: the first
/// `count` of the canonical order. Units report two or three; any other
/// count describes no supported set.
pub open spec fn supported_profiles(count: int) -> Option<Seq<PerformanceProfile>> {
    if count == 2 || count == 3 {
        Some(canonical_profiles().take(count))
    } else {
        None
    }
}

/// The profile with the given name. Names match exactly: case matters and
/// nothing is trimmed.
pub open spec fn profile_named(name: Seq<char>) -> Option<PerformanceProfile> {
    if name == PerformanceProfile::Balanced.spec_name() {
        Some(PerformanceProfile::Balanced)
    } else if name == PerformanceProfile::Enthusiast.spec_name() {
        Some(PerformanceProfile::Enthusiast)
    } else if name == PerformanceProfile::Overboost.spec_name() {
        Some(PerformanceProfile::Overboost)
    } else {
        None
    }
}

/// The names of a sequence of profiles, in the same order.
pub open spec fn names_of(profiles: Seq<PerformanceProfile>) -> Seq<Seq<char>> {
    Seq::new(profiles.len(), |i: int| profiles[i].spec_name())
}

/// Whether `names` holds the names of `profiles`, one for one and in the same
/// order.
pub open spec fn are_names_of(names: Seq<String>, profiles: Seq<PerformanceProfile>) -> bool {
    &&& names.len() == profiles.len()
    &&& forall|i: int| 0 <= i < names.len() ==> (#[trigger] names[i])@ == profiles[i].spec_name()
}

impl PerformanceProfile {
    /// Name by which callers select the profile.
    pub open spec fn spec_name(self) -> Seq<char> {
        match self {
            PerformanceProfile::Balanced => "power_save"@,
            PerformanceProfile::Enthusiast => "enthusiast"@,
            PerformanceProfile::Overboost => "overboost"@,
        }
    }

    /// Code written to the device to select the profile.
    pub open spec fn spec_code(self) -> int {
        match self {
            PerformanceProfile::Balanced => 1,
            PerformanceProfile::Enthusiast => 2,
            PerformanceProfile::Overboost => 3,
        }
    }

    /// Name by which callers select the profile.
    pub fn name(self) -> (name: &'static str)
        ensures
            name@ == self.spec_name(),
    {
        match self {
            PerformanceProfile::Balanced => "power_save",
            PerformanceProfile::Enthusiast => "enthusiast",
            PerformanceProfile::Overboost => "overboost",
        }
    }

    /// Code written to the device to select the profile.
    pub fn code(self) -> (code: u8)
        ensures
            code == self.spec_code(),
            1 <= code <= 3,
    {
        match self {
            PerformanceProfile::Balanced => 1,
            PerformanceProfile::Enthusiast => 2,
            PerformanceProfile::Overboost => 3,
        }
    }

    /// Looks a profile up by its name.
    pub fn from_name(name: &str) -> (profile: Option<PerformanceProfile>)
        ensures
            profile == profile_named(name@),
    {
        let wanted = name.to_owned();
        if wanted == PerformanceProfile::Balanced.name().to_owned() {
            Some(PerformanceProfile::Balanced)
        } else if wanted == PerformanceProfile::Enthusiast.name().to_owned() {
            Some(PerformanceProfile::Enthusiast)
        } else if wanted == PerformanceProfile::Overboost.name().to_owned() {
            Some(PerformanceProfile::Overboost)
        } else {
            None
        }
    }

    /// The profiles a unit supports when it reports `count` of them.
    pub fn supported(count: i32) -> (profiles: Option<Vec<PerformanceProfile>>)
        ensures
            match supported_profiles(count as int) {
                Some(expected) => profiles matches Some(v) && v@ == expected,
                None => profiles is None,
            },
    {
        if count == 2 {
            let v = vec![PerformanceProfile::Balanced, PerformanceProfile::Enthusiast];
            assert(v@ =~= canonical_profiles().take(2));
            Some(v)
        } else if count == 3 {
            let v = vec![
                PerformanceProfile::Balanced,
                PerformanceProfile::Enthusiast,
                PerformanceProfile::Overboost,
            ];
            assert(v@ =~= canonical_profiles().take(3));
            Some(v)
        } else {
            None
        }
    }
}

/// Two profiles with the same name are the same profile.
pub proof fn lemma_names_distinct(a: PerformanceProfile, b: PerformanceProfile)
    requires
        a.spec_name() == b.spec_name(),
    ensures
        a == b,
{
    reveal_strlit("power_save");
    reveal_strlit("enthusiast");
    reveal_strlit("overboost");
    let first_a = a.spec_name()[0];
    let first_b = b.spec_name()[0];
    assert(first_a == first_b);
}

/// Looking up a profile's own name finds that profile, and a name that is
/// found is the name of the profile found.
pub proof fn lemma_lookup_inverts_name(profile: PerformanceProfile, name: Seq<char>)
    ensures
        profile_named(profile.spec_name()) == Some(profile),
        profile_named(name) == Some(profile) <==> name == profile.spec_name(),
{
    if profile_named(profile.spec_name()) != Some(profile) {
        let found = profile_named(profile.spec_name())->0;
        lemma_names_distinct(found, profile);
    }
    if name == profile.spec_name() {
        assert(profile_named(name) == Some(profile));
    }
}

/// The code of a profile is its position in the canonical order, counted
/// from one.
pub proof fn lemma_code_is_rank(profile: PerformanceProfile)
    ensures
        1 <= profile.spec_code() <= canonical_profiles().len(),
        canonical_profiles()[profile.spec_code() - 1] == profile,
{
}

/// Whatever a unit reports, the set it supports is a leading part of the
/// canonical order, and its length is the count reported.
pub proof fn lemma_supported_is_prefix(count: int)
    ensures
        supported_profiles(count) matches Some(profiles) ==> {
            &&& profiles.is_prefix_of(canonical_profiles())
            &&& profiles.len() == count
            &&& names_of(profiles).is_prefix_of(names_of(canonical_profiles()))
        },
{
    if let Some(profiles) = supported_profiles(count) {
        assert(profiles.is_prefix_of(canonical_profiles()));
        assert(names_of(profiles) =~= names_of(canonical_profiles()).subrange(
            0,
            profiles.len() as int,
        ));
    }
}

} // verus!
