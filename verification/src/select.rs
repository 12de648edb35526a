//! Picking one chip out of the catalog.

use crate::catalog::{chip_names, names_unique, Binary, Chip};
use crate::version::{compared, parsed_version, version_order, Precedence, Version, VersionView};
use vstd::prelude::*;

verus! {

/// Why no chip or no firmware build could be picked.
#[allow(inconsistent_fields)]
#[derive(Debug)]
pub enum SelectionError {
    /// The project has no chip at all.
    NoChipsConfigured,
    /// Several chips and no name to tell them apart.
    AmbiguousChip { available: Vec<String> },
    /// No chip has the requested name.
    ChipNotFound { requested: String, available: Vec<String> },
    /// The chip has no firmware build.
    NoBinariesUploaded { chip_name: String },
    /// No build of the chip has the requested version. `available` holds the
    /// versions of all builds, newest first.
    BinaryVersionNotFound { requested: String, chip_name: String, available: Vec<Version> },
    /// The requested version is no semantic version.
    InvalidVersion { requested: String, reason: String },
}

/// The contents of a list of strings.
pub open spec fn texts(list: Seq<String>) -> Seq<Seq<char>> {
    Seq::new(list.len(), |i: int| list[i]@)
}

/// The first position at or after `from` whose chip is called `name`, or the
/// length of the list where there is none.
pub open spec fn first_named(chips: Seq<Chip>, name: Seq<char>, from: int) -> int
    decreases chips.len() - from,
{
    if from < 0 || from >= chips.len() {
        chips.len() as int
    } else if chips[from].name@ == name {
        from
    } else {
        first_named(chips, name, from + 1)
    }
}

/// What picking a chip comes to.
pub enum ChipOutcome {
    Selected(int),
    NoChips,
    Ambiguous,
    NotFound,
}

/// With a name: the first chip of that name. Without one: the only chip, if
/// the catalog holds exactly one.
pub open spec fn chip_outcome(chips: Seq<Chip>, requested: Option<Seq<char>>) -> ChipOutcome {
    match requested {
        Some(name) => {
            let at = first_named(chips, name, 0);
            if at < chips.len() {
                ChipOutcome::Selected(at)
            } else {
                ChipOutcome::NotFound
            }
        },
        None => {
            if chips.len() == 0 {
                ChipOutcome::NoChips
            } else if chips.len() == 1 {
                ChipOutcome::Selected(0)
            } else {
                ChipOutcome::Ambiguous
            }
        },
    }
}

/// `first_named` is the least position of the name at or after `from`.
pub proof fn lemma_first_named(chips: Seq<Chip>, name: Seq<char>, from: int)
    requires
        0 <= from <= chips.len(),
    ensures
        from <= first_named(chips, name, from) <= chips.len(),
        first_named(chips, name, from) < chips.len() ==> chips[first_named(
            chips,
            name,
            from,
        )].name@ == name,
        forall|j: int| from <= j < first_named(chips, name, from) ==> chips[j].name@ != name,
    decreases chips.len() - from,
{
    if from < chips.len() && chips[from].name@ != name {
        lemma_first_named(chips, name, from + 1);
    }
}

/// The names of all chips, in catalog order.
pub fn available_names(chips: &Vec<Chip>) -> (names: Vec<String>)
    ensures
        texts(names@) == chip_names(chips@),
{
    let mut names: Vec<String> = Vec::new();
    let mut i: usize = 0;
    while i < chips.len()
        invariant
            i <= chips.len(),
            names.len() == i,
            forall|j: int| 0 <= j < i ==> names[j]@ == chips[j].name@,
        decreases chips.len() - i,
    {
        names.push(chips[i].name.clone());
        i += 1;
    }
    assert(texts(names@) =~= chip_names(chips@));
    names
}

/// Picks the chip to flash. With a requested name, the first chip of that
/// name; without one, the only chip of the catalog.
pub fn resolve_chip<'a>(chips: &'a Vec<Chip>, requested: Option<&String>) -> (r: Result<
    &'a Chip,
    SelectionError,
>)
    ensures
        match chip_outcome(
            chips@,
            match requested {
                Some(name) => Some(name@),
                None => None,
            },
        ) {
            ChipOutcome::Selected(at) => r matches Ok(chip) && *chip == chips[at],
            ChipOutcome::NoChips => r matches Err(SelectionError::NoChipsConfigured),
            ChipOutcome::Ambiguous => r matches Err(SelectionError::AmbiguousChip { available })
                && texts(available@) == chip_names(chips@),
            ChipOutcome::NotFound => r matches Err(
                SelectionError::ChipNotFound { requested: name, available },
            ) && Some(name@) == (match requested {
                Some(name) => Some(name@),
                None => None,
            }) && texts(available@) == chip_names(chips@),
        },
{
    match requested {
        Some(name) => {
            let mut i: usize = 0;
            while i < chips.len()
                invariant
                    i <= chips.len(),
                    requested == Some(name),
                    first_named(chips@, name@, 0) == first_named(chips@, name@, i as int),
                decreases chips.len() - i,
            {
                if chips[i].name == *name {
                    return Ok(&chips[i]);
                }
                i += 1;
            }
            Err(
                SelectionError::ChipNotFound {
                    requested: name.clone(),
                    available: available_names(chips),
                },
            )
        },
        None => {
            if chips.len() == 0 {
                Err(SelectionError::NoChipsConfigured)
            } else if chips.len() == 1 {
                Ok(&chips[0])
            } else {
                Err(SelectionError::AmbiguousChip { available: available_names(chips) })
            }
        },
    }
}

/// The versions of the builds, in catalog order.
pub open spec fn versions_of(binaries: Seq<Binary>) -> Seq<VersionView> {
    Seq::new(binaries.len(), |i: int| binaries[i].version@)
}

/// The contents of a list of versions.
pub open spec fn version_views(list: Seq<Version>) -> Seq<VersionView> {
    Seq::new(list.len(), |i: int| list[i]@)
}

/// The first position at or after `from` whose build has the version
/// `wanted`, or the length of the list where there is none.
pub open spec fn first_versioned(binaries: Seq<Binary>, wanted: VersionView, from: int) -> int
    decreases binaries.len() - from,
{
    if from < 0 || from >= binaries.len() {
        binaries.len() as int
    } else if binaries[from].version@ == wanted {
        from
    } else {
        first_versioned(binaries, wanted, from + 1)
    }
}

/// The version at `at` is a maximum: no other is above it, and those after
/// it are strictly below.
pub open spec fn is_newest(versions: Seq<VersionView>, at: int) -> bool {
    &&& 0 <= at < versions.len()
    &&& forall|j: int|
        0 <= j < versions.len() && j != at ==> version_order(#[trigger] versions[j], versions[at])
            <= 0
    &&& forall|j: int|
        at < j < versions.len() ==> version_order(#[trigger] versions[j], versions[at]) < 0
}

/// Each version is at most the one before it.
pub open spec fn descending(list: Seq<VersionView>) -> bool {
    forall|i: int, j: int|
        0 <= i < j < list.len() ==> version_order(#[trigger] list[j], #[trigger] list[i]) <= 0
}

/// Each version is strictly below the one before it.
pub open spec fn strictly_descending(list: Seq<VersionView>) -> bool {
    forall|i: int, j: int|
        0 <= i < j < list.len() ==> version_order(#[trigger] list[j], #[trigger] list[i]) < 0
}

/// No two versions of the list are equal.
pub open spec fn versions_unique(list: Seq<VersionView>) -> bool {
    forall|i: int, j: int| 0 <= i < j < list.len() ==> #[trigger] list[i] != #[trigger] list[j]
}

/// The position of the newest build; of several equally new ones, the last.
/// `None` where there is no build.
pub fn newest_index(binaries: &Vec<Binary>) -> (r: Option<usize>)
    ensures
        binaries.len() == 0 <==> r is None,
        r matches Some(at) ==> is_newest(versions_of(binaries@), at as int),
{
    if binaries.len() == 0 {
        return None;
    }
    let mut best: usize = 0;
    let mut k: usize = 1;
    while k < binaries.len()
        invariant
            0 <= best < k <= binaries.len(),
            forall|j: int|
                0 <= j < k && j != best ==> version_order(
                    #[trigger] binaries[j].version@,
                    binaries[best as int].version@,
                ) <= 0,
            forall|j: int|
                best < j < k ==> version_order(
                    #[trigger] binaries[j].version@,
                    binaries[best as int].version@,
                ) < 0,
        decreases binaries.len() - k,
    {
        let r = binaries[k].version.compare(&binaries[best].version);
        match r {
            Precedence::Lower => {},
            _ => {
                best = k;
            },
        }
        k += 1;
    }
    assert(is_newest(versions_of(binaries@), best as int));
    Some(best)
}

/// Adding `x` at `at` adds one `x` to what the list holds.
proof fn lemma_insert_multiset(list: Seq<VersionView>, at: int, x: VersionView)
    requires
        0 <= at <= list.len(),
    ensures
        list.insert(at, x).to_multiset() == list.to_multiset().insert(x),
{
    let longer = list.insert(at, x);
    assert(longer.remove(at) =~= list);
    vstd::seq_lib::to_multiset_remove(longer, at);
    assert(longer[at] == x);
    longer.to_multiset_ensures();
    assert(longer.contains(x));
    assert(longer.to_multiset() =~= list.to_multiset().insert(x));
}

/// The versions of all builds, newest first.
pub fn versions_newest_first(binaries: &Vec<Binary>) -> (list: Vec<Version>)
    ensures
        version_views(list@).to_multiset() == versions_of(binaries@).to_multiset(),
        descending(version_views(list@)),
        versions_unique(versions_of(binaries@)) ==> strictly_descending(version_views(list@)),
{
    let mut list: Vec<Version> = Vec::new();
    let mut k: usize = 0;
    assert(version_views(list@) =~= versions_of(binaries@).take(0));
    while k < binaries.len()
        invariant
            k <= binaries.len(),
            list.len() == k,
            version_views(list@).to_multiset() == versions_of(binaries@).take(
                k as int,
            ).to_multiset(),
            descending(version_views(list@)),
            versions_unique(versions_of(binaries@)) ==> strictly_descending(version_views(list@)),
        decreases binaries.len() - k,
    {
        let x = binaries[k].version.duplicate();
        let ghost before = version_views(list@);
        let ghost seen = versions_of(binaries@).take(k as int);
        let mut p: usize = 0;
        let mut found = false;
        while p < list.len() && !found
            invariant
                p <= list.len(),
                list.len() == k,
                k < binaries.len(),
                x@ == binaries[k as int].version@,
                before == version_views(list@),
                descending(before),
                forall|i: int|
                    0 <= i < p - (if found { 1int } else { 0int }) ==> version_order(
                        x@,
                        #[trigger] before[i],
                    ) <= 0,
                forall|i: int|
                    0 <= i < p - (if found { 1int } else { 0int }) ==> (x@ != #[trigger] before[i]
                        ==> version_order(x@, before[i]) < 0),
                found ==> p >= 1 && forall|i: int|
                    p - 1 <= i < before.len() ==> version_order(#[trigger] before[i], x@) < 0,
            decreases list.len() - p + (if found { 0int } else { 1int }),
        {
            let r = x.compare(&list[p]);
            assert(compared(r, x@, before[p as int]));
            match r {
                Precedence::Higher => {
                    found = true;
                    assert forall|i: int| p <= i < before.len() implies version_order(
                        #[trigger] before[i],
                        x@,
                    ) < 0 by {
                        if i > p {
                            assert(version_order(before[i], before[p as int]) <= 0);
                        }
                    }
                },
                _ => {},
            }
            p += 1;
        }
        let at: usize = if found { p - 1 } else { p };
        list.insert(at, x);
        proof {
            let after = version_views(list@);
            assert(after =~= before.insert(at as int, x@));
            lemma_insert_multiset(before, at as int, x@);
            let next = versions_of(binaries@).take(k as int + 1);
            assert(next =~= seen.push(x@));
            vstd::seq_lib::to_multiset_build(seen, x@);
            assert forall|i: int, j: int| 0 <= i < j < after.len() implies version_order(
                #[trigger] after[j],
                #[trigger] after[i],
            ) <= 0 by {}
            if versions_unique(versions_of(binaries@)) {
                assert forall|i: int| 0 <= i < before.len() implies x@ != #[trigger] before[i] by {
                    before.to_multiset_ensures();
                    seen.to_multiset_ensures();
                    assert(before.contains(before[i]));
                    assert(before.to_multiset().count(before[i]) > 0);
                    assert(seen.to_multiset().count(before[i]) > 0);
                    assert(seen.contains(before[i]));
                    let w = choose|w: int| 0 <= w < seen.len() && seen[w] == before[i];
                    assert(versions_of(binaries@)[w] != versions_of(binaries@)[k as int]);
                }
                assert forall|i: int, j: int| 0 <= i < j < after.len() implies version_order(
                    #[trigger] after[j],
                    #[trigger] after[i],
                ) < 0 by {}
            }
        }
        k += 1;
    }
    assert(versions_of(binaries@).take(k as int) =~= versions_of(binaries@));
    list
}

/// `first_versioned` is the least position of the version at or after `from`.
pub proof fn lemma_first_versioned(binaries: Seq<Binary>, wanted: VersionView, from: int)
    requires
        0 <= from <= binaries.len(),
    ensures
        from <= first_versioned(binaries, wanted, from) <= binaries.len(),
        first_versioned(binaries, wanted, from) < binaries.len() ==> binaries[first_versioned(
            binaries,
            wanted,
            from,
        )].version@ == wanted,
        forall|j: int|
            from <= j < first_versioned(binaries, wanted, from) ==> binaries[j].version@ != wanted,
    decreases binaries.len() - from,
{
    if from < binaries.len() && binaries[from].version@ != wanted {
        lemma_first_versioned(binaries, wanted, from + 1);
    }
}

/// The result is the build at `at`.
pub open spec fn picks(r: Result<&Binary, SelectionError>, chip: &Chip, at: int) -> bool {
    r matches Ok(binary) && 0 <= at < chip.binaries.len() && *binary == chip.binaries[at]
}

/// The result is the newest build of the chip.
pub open spec fn picks_newest(r: Result<&Binary, SelectionError>, chip: &Chip) -> bool {
    exists|at: int| is_newest(versions_of(chip.binaries@), at) && #[trigger] picks(r, chip, at)
}

/// The result says that the chip has no build.
pub open spec fn reports_no_binaries(r: Result<&Binary, SelectionError>, chip: &Chip) -> bool {
    r matches Err(SelectionError::NoBinariesUploaded { chip_name }) && chip_name@ == chip.name@
}

/// The result says that no build has the version written `text`, and lists
/// the versions of all builds, newest first.
pub open spec fn reports_missing_version(
    r: Result<&Binary, SelectionError>,
    chip: &Chip,
    text: Seq<char>,
) -> bool {
    r matches Err(SelectionError::BinaryVersionNotFound { requested, chip_name, available })
        && requested@ == text && chip_name@ == chip.name@ && version_views(
        available@,
    ).to_multiset() == versions_of(chip.binaries@).to_multiset() && descending(
        version_views(available@),
    ) && (versions_unique(versions_of(chip.binaries@)) ==> strictly_descending(
        version_views(available@),
    ))
}

/// The result says that `text` is no semantic version.
pub open spec fn reports_invalid_version(
    r: Result<&Binary, SelectionError>,
    text: Seq<char>,
) -> bool {
    r matches Err(SelectionError::InvalidVersion { requested, reason }) && requested@ == text
}

/// Picks the build to flash among those of `chip`. With a requested version,
/// the first build of exactly that version; without one, the newest build.
pub fn select_binary<'a>(chip: &'a Chip, requested: Option<&Version>) -> (r: Result<
    &'a Binary,
    SelectionError,
>)
    ensures
        match requested {
            Some(wanted) => {
                let at = first_versioned(chip.binaries@, wanted@, 0);
                if at < chip.binaries.len() {
                    picks(r, chip, at)
                } else {
                    reports_missing_version(r, chip, wanted.text_view())
                }
            },
            None => {
                if chip.binaries.len() == 0 {
                    reports_no_binaries(r, chip)
                } else {
                    picks_newest(r, chip)
                }
            },
        },
{
    match requested {
        Some(wanted) => {
            let mut i: usize = 0;
            proof {
                lemma_first_versioned(chip.binaries@, wanted@, 0);
            }
            while i < chip.binaries.len()
                invariant
                    i <= chip.binaries.len(),
                    requested == Some(wanted),
                    first_versioned(chip.binaries@, wanted@, 0) == first_versioned(
                        chip.binaries@,
                        wanted@,
                        i as int,
                    ),
                decreases chip.binaries.len() - i,
            {
                if chip.binaries[i].version.same(wanted) {
                    return Ok(&chip.binaries[i]);
                }
                i += 1;
            }
            Err(
                SelectionError::BinaryVersionNotFound {
                    requested: wanted.text().to_owned(),
                    chip_name: chip.name.clone(),
                    available: versions_newest_first(&chip.binaries),
                },
            )
        },
        None => {
            match newest_index(&chip.binaries) {
                Some(at) => {
                    let r = Ok(&chip.binaries[at]);
                    assert(picks(r, chip, at as int));
                    r
                },
                None => Err(SelectionError::NoBinariesUploaded { chip_name: chip.name.clone() }),
            }
        },
    }
}

/// Picks the build to flash, the requested version given as text. A text
/// that is no semantic version is refused before any build is looked at.
pub fn resolve_binary<'a>(chip: &'a Chip, requested: Option<&String>) -> (r: Result<
    &'a Binary,
    SelectionError,
>)
    ensures
        match requested {
            Some(text) => match parsed_version(text@) {
                Some(wanted) => {
                    let at = first_versioned(chip.binaries@, wanted, 0);
                    if at < chip.binaries.len() {
                        picks(r, chip, at)
                    } else {
                        reports_missing_version(r, chip, text@)
                    }
                },
                None => reports_invalid_version(r, text@),
            },
            None => {
                if chip.binaries.len() == 0 {
                    reports_no_binaries(r, chip)
                } else {
                    picks_newest(r, chip)
                }
            },
        },
{
    match requested {
        Some(text) => {
            match Version::parse(text.as_str()) {
                Ok(wanted) => select_binary(chip, Some(&wanted)),
                Err(failure) => Err(
                    SelectionError::InvalidVersion {
                        requested: text.clone(),
                        reason: failure.reason,
                    },
                ),
            }
        },
        None => select_binary(chip, None),
    }
}

/// Without a requested name an empty catalog has no chip to offer, a catalog
/// of one chip offers that chip, and a larger one leaves the choice open.
pub proof fn law_unnamed_chip_by_size(chips: Seq<Chip>)
    ensures
        chips.len() == 0 ==> chip_outcome(chips, None) == ChipOutcome::NoChips,
        chips.len() == 1 ==> chip_outcome(chips, None) == ChipOutcome::Selected(0),
        chips.len() >= 2 ==> chip_outcome(chips, None) == ChipOutcome::Ambiguous,
{
}

/// A requested name that some chip bears selects a chip of that name,
/// whatever the size of the catalog and wherever the chip stands in it; where
/// names are unique, it selects that very chip.
pub proof fn law_named_chip_is_found(chips: Seq<Chip>, at: int)
    requires
        0 <= at < chips.len(),
    ensures
        (chip_outcome(chips, Some(chips[at].name@)) matches ChipOutcome::Selected(found) && 0
            <= found <= at && chips[found].name@ == chips[at].name@),
        names_unique(chips) ==> chip_outcome(chips, Some(chips[at].name@))
            == ChipOutcome::Selected(at),
{
    lemma_first_named(chips, chips[at].name@, 0);
}

/// A requested version that exactly one build has is found at that build.
pub proof fn law_exact_version_is_found(binaries: Seq<Binary>, at: int)
    requires
        0 <= at < binaries.len(),
        forall|j: int|
            0 <= j < binaries.len() && j != at ==> binaries[j].version@ != binaries[at].version@,
    ensures
        first_versioned(binaries, binaries[at].version@, 0) == at,
{
    lemma_first_versioned(binaries, binaries[at].version@, 0);
}

/// The texts with ", " between them.
pub open spec fn joined(list: Seq<Seq<char>>) -> Seq<char>
    decreases list.len(),
{
    if list.len() == 0 {
        Seq::empty()
    } else if list.len() == 1 {
        list[0]
    } else {
        joined(list.drop_last()) + ", "@ + list.last()
    }
}

/// The versions as they are written.
pub open spec fn version_texts(list: Seq<Version>) -> Seq<Seq<char>> {
    Seq::new(list.len(), |i: int| list[i].text_view())
}

/// The names with ", " between them.
pub fn join_names(names: &Vec<String>) -> (line: String)
    ensures
        line@ == joined(texts(names@)),
{
    let mut line = String::new();
    let mut i: usize = 0;
    while i < names.len()
        invariant
            i <= names.len(),
            line@ == joined(texts(names@).take(i as int)),
        decreases names.len() - i,
    {
        let ghost seen = texts(names@).take(i as int + 1);
        assert(seen.drop_last() =~= texts(names@).take(i as int));
        assert(seen.last() == names[i as int]@);
        if i > 0 {
            line.append(", ");
        }
        line.append(names[i].as_str());
        i += 1;
    }
    assert(texts(names@).take(i as int) =~= texts(names@));
    line
}

/// The versions, as they are written, with ", " between them.
pub fn join_versions(versions: &Vec<Version>) -> (line: String)
    ensures
        line@ == joined(version_texts(versions@)),
{
    let mut line = String::new();
    let mut i: usize = 0;
    while i < versions.len()
        invariant
            i <= versions.len(),
            line@ == joined(version_texts(versions@).take(i as int)),
        decreases versions.len() - i,
    {
        let ghost seen = version_texts(versions@).take(i as int + 1);
        assert(seen.drop_last() =~= version_texts(versions@).take(i as int));
        assert(seen.last() == versions[i as int].text_view());
        if i > 0 {
            line.append(", ");
        }
        line.append(versions[i].text());
        i += 1;
    }
    assert(version_texts(versions@).take(i as int) =~= version_texts(versions@));
    line
}

impl SelectionError {
    /// What the operator is told.
    pub open spec fn message_text(&self) -> Seq<char> {
        match self {
            SelectionError::NoChipsConfigured =>
                "No chips have been configured for this project. Add one to the project first."@,
            SelectionError::AmbiguousChip { available } =>
                "Multiple chips found for this project. Please specify one. Available chips: [ "@
                    + joined(texts(available@)) + " ]"@,
            SelectionError::ChipNotFound { requested, available } => "Chip `"@ + requested@
                + "` not found. Available chips: [ "@ + joined(texts(available@)) + " ]"@,
            SelectionError::NoBinariesUploaded { chip_name } =>
                "No binaries have been uploaded for chip "@ + chip_name@,
            SelectionError::BinaryVersionNotFound { requested, chip_name, available } =>
                "Binary version `"@ + requested@ + "` not found for chip `"@ + chip_name@
                    + "`. Available versions: [ "@ + joined(version_texts(available@)) + " ]"@,
            SelectionError::InvalidVersion { requested, reason } => reason@,
        }
    }

    /// What the operator is told.
    pub fn message(&self) -> (line: String)
        ensures
            line@ == self.message_text(),
    {
        match self {
            SelectionError::NoChipsConfigured => String::from_str(
                "No chips have been configured for this project. Add one to the project first.",
            ),
            SelectionError::AmbiguousChip { available } => {
                let mut line = String::from_str(
                    "Multiple chips found for this project. Please specify one. Available chips: [ ",
                );
                line.append(join_names(available).as_str());
                line.append(" ]");
                line
            },
            SelectionError::ChipNotFound { requested, available } => {
                let mut line = String::from_str("Chip `");
                line.append(requested.as_str());
                line.append("` not found. Available chips: [ ");
                line.append(join_names(available).as_str());
                line.append(" ]");
                line
            },
            SelectionError::NoBinariesUploaded { chip_name } => {
                let mut line = String::from_str("No binaries have been uploaded for chip ");
                line.append(chip_name.as_str());
                line
            },
            SelectionError::BinaryVersionNotFound { requested, chip_name, available } => {
                let mut line = String::from_str("Binary version `");
                line.append(requested.as_str());
                line.append("` not found for chip `");
                line.append(chip_name.as_str());
                line.append("`. Available versions: [ ");
                line.append(join_versions(available).as_str());
                line.append(" ]");
                line
            },
            SelectionError::InvalidVersion { requested, reason } => reason.clone(),
        }
    }
}

} // verus!
