//! The display directory: the records that one enumeration of the attached
//! displays produces, and the resolution of a capture request to one of them.
//!
//! A record is valid for the one enumeration that produced it; nothing is
//! guaranteed across calls, since displays may be hot-plugged.

use vstd::prelude::*;

use crate::errors::CaptureError;

verus! {

/// The record of one attached display, as one enumeration reported it.
///
/// The identifier is an opaque handle, stable for the session; position and
/// dimensions are in virtual-desktop pixel coordinates.  Rotation, scale
/// factor and refresh rate are floating-point attributes of the display;
/// they are marshalled at the boundary and play no part in the capture
/// logic, so they are not part of this record.
#[derive(Clone, Copy, PartialEq, Eq, Structural, Debug)]
pub struct ScreenInfo {
    /// Opaque identifier, unique within one enumeration result.
    pub id: u32,
    /// Horizontal offset in the virtual desktop.
    pub x: i32,
    /// Vertical offset in the virtual desktop.
    pub y: i32,
    /// Width in pixels.
    pub width: u32,
    /// Height in pixels.
    pub height: u32,
    /// Whether this is the main display.
    pub is_primary: bool,
}

/// Identifiers are unique within one enumeration result.
pub open spec fn ids_unique(s: Seq<ScreenInfo>) -> bool {
    forall|i: int, j: int| 0 <= i < j < s.len() ==> s[i].id != s[j].id
}

/// Some record of the enumeration carries the given identifier.
pub open spec fn has_display(s: Seq<ScreenInfo>, id: u32) -> bool {
    exists|i: int| 0 <= i < s.len() && s[i].id == id
}

/// The first record whose identifier matches, or `DisplayNotFound` when no
/// record matches.  Identifier equality is exact; there is no fuzzy match.
pub open spec fn resolve_by_id(s: Seq<ScreenInfo>, id: u32) -> Result<ScreenInfo, CaptureError>
    decreases s.len(),
{
    if s.len() == 0 {
        Err(CaptureError::DisplayNotFound)
    } else if s[0].id == id {
        Ok(s[0])
    } else {
        resolve_by_id(s.drop_first(), id)
    }
}

/// What resolving a capture request against one enumeration result returns:
/// with no requested identifier, the first record, or `NoDisplays` on an
/// empty result; with a requested identifier, the first matching record, or
/// `DisplayNotFound` when none matches.
pub open spec fn resolve_spec(s: Seq<ScreenInfo>, requested: Option<u32>) -> Result<
    ScreenInfo,
    CaptureError,
> {
    match requested {
        None => if s.len() == 0 {
            Err(CaptureError::NoDisplays)
        } else {
            Ok(s[0])
        },
        Some(id) => resolve_by_id(s, id),
    }
}

/// Resolves a capture request to the position of the chosen record within
/// the enumeration result.
pub fn resolve_index(screens: &Vec<ScreenInfo>, requested: Option<u32>) -> (r: Result<
    usize,
    CaptureError,
>)
    ensures
        match r {
            Ok(i) => i < screens@.len() && resolve_spec(screens@, requested) == Ok::<
                ScreenInfo,
                CaptureError,
            >(screens@[i as int]),
            Err(e) => resolve_spec(screens@, requested) == Err::<ScreenInfo, CaptureError>(e),
        },
{
    match requested {
        None => {
            if screens.len() == 0 {
                Err(CaptureError::NoDisplays)
            } else {
                Ok(0)
            }
        },
        Some(id) => {
            let mut i: usize = 0;
            assert(screens@.skip(0) =~= screens@);
            while i < screens.len()
                invariant
                    requested == Some(id),
                    i <= screens@.len(),
                    forall|k: int| 0 <= k < i ==> screens@[k].id != id,
                    resolve_by_id(screens@.skip(i as int), id) == resolve_by_id(screens@, id),
                decreases screens@.len() - i,
            {
                assert(screens@.skip(i as int)[0] == screens@[i as int]);
                if screens[i].id == id {
                    assert(resolve_by_id(screens@.skip(i as int), id) == Ok::<
                        ScreenInfo,
                        CaptureError,
                    >(screens@[i as int]));
                    return Ok(i);
                }
                assert(screens@.skip(i as int).drop_first() =~= screens@.skip(i as int + 1));
                i = i + 1;
            }
            assert(screens@.skip(i as int).len() == 0);
            Err(CaptureError::DisplayNotFound)
        },
    }
}

/// Resolves a capture request to the chosen display record itself.
pub fn resolve_display(screens: &Vec<ScreenInfo>, requested: Option<u32>) -> (r: Result<
    ScreenInfo,
    CaptureError,
>)
    ensures
        r == resolve_spec(screens@, requested),
{
    match resolve_index(screens, requested) {
        Ok(i) => Ok(screens[i]),
        Err(e) => Err(e),
    }
}

/// Law: when identifiers are unique within the enumeration result, resolving
/// a present identifier yields exactly the one record that carries it, not
/// merely the first of several.
pub proof fn lemma_resolve_unique(s: Seq<ScreenInfo>, id: u32, i: int)
    requires
        ids_unique(s),
        0 <= i < s.len(),
        s[i].id == id,
    ensures
        resolve_by_id(s, id) == Ok::<ScreenInfo, CaptureError>(s[i]),
    decreases s.len(),
{
    if i == 0 {
    } else {
        assert(s[0].id != id);
        assert(ids_unique(s.drop_first())) by {
            assert forall|p: int, q: int|
                0 <= p < q < s.drop_first().len() implies s.drop_first()[p].id
                    != s.drop_first()[q].id by {
                assert(s.drop_first()[p] == s[p + 1]);
                assert(s.drop_first()[q] == s[q + 1]);
            }
        }
        assert(s.drop_first()[i - 1] == s[i]);
        lemma_resolve_unique(s.drop_first(), id, i - 1);
    }
}

/// The only failure that resolving by identifier can report is that the
/// identifier is absent.
pub proof fn lemma_resolve_by_id_err(s: Seq<ScreenInfo>, id: u32)
    ensures
        resolve_by_id(s, id) matches Err(e) ==> e is DisplayNotFound,
    decreases s.len(),
{
    if s.len() == 0 {
    } else if s[0].id == id {
    } else {
        lemma_resolve_by_id_err(s.drop_first(), id);
    }
}

/// Law: resolving by identifier fails exactly when no record of the
/// enumeration result carries that identifier.
pub proof fn lemma_resolve_absent(s: Seq<ScreenInfo>, id: u32)
    ensures
        resolve_by_id(s, id) is Err <==> !has_display(s, id),
    decreases s.len(),
{
    if s.len() == 0 {
    } else if s[0].id == id {
    } else {
        lemma_resolve_absent(s.drop_first(), id);
        assert forall|k: int| 0 <= k < s.len() && s[k].id == id implies has_display(
            s.drop_first(),
            id,
        ) by {
            assert(s.drop_first()[k - 1] == s[k]);
        }
        if has_display(s.drop_first(), id) {
            let w = choose|k: int| 0 <= k < s.drop_first().len() && s.drop_first()[k].id == id;
            assert(s[w + 1] == s.drop_first()[w]);
        }
    }
}

} // verus!
