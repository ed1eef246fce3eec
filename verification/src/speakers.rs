//! The speaker catalog the synthesis service reports: speakers group
//! styles for display, and a style id is the unit of addressing for
//! synthesis.  The catalog is fetched fresh per invocation and never
//! cached.

use vstd::prelude::*;

verus! {

/// One selectable synthesis voice, addressed by its id, which is unique
/// across all speakers.
pub struct Style {
    pub name: String,
    pub id: u32,
}

/// A speaker: a display name grouping an ordered list of styles.
pub struct Speaker {
    pub name: String,
    pub styles: Vec<Style>,
}

/// Whether one speaker carries a style with the given id.
pub open spec fn speaker_has_style(sp: Speaker, id: u32) -> bool {
    exists|j: int| 0 <= j < sp.styles@.len() && #[trigger] sp.styles@[j].id == id
}

/// Whether any speaker of the catalog carries a style with the given id.
pub open spec fn has_style(speakers: Seq<Speaker>, id: u32) -> bool {
    exists|i: int| 0 <= i < speakers.len() && #[trigger] speaker_has_style(speakers[i], id)
}

/// Finds the speaker and style a style id addresses: the index of the
/// first speaker carrying the id and, within it, the index of its first
/// style with that id, in catalog order.  Nothing is found exactly when no
/// speaker carries the id.
#[verifier::loop_isolation(false)]
pub fn find_speaker_and_style(speakers: &Vec<Speaker>, style_id: u32) -> (r: Option<
    (usize, usize),
>)
    ensures
        r is Some <==> has_style(speakers@, style_id),
        r matches Some(p) ==> p.0 < speakers@.len() && p.1 < speakers@[p.0 as int].styles@.len()
            && speakers@[p.0 as int].styles@[p.1 as int].id == style_id,
        r matches Some(p) ==> forall|i: int|
            0 <= i < p.0 as int ==> !speaker_has_style(#[trigger] speakers@[i], style_id),
        r matches Some(p) ==> forall|j: int|
            0 <= j < p.1 as int ==> #[trigger] speakers@[p.0 as int].styles@[j].id != style_id,
{
    let mut i: usize = 0;
    while i < speakers.len()
        invariant
            i <= speakers@.len(),
            forall|k: int| 0 <= k < i as int ==> !speaker_has_style(#[trigger] speakers@[k], style_id),
        decreases speakers@.len() - i,
    {
        let styles = &speakers[i].styles;
        let mut j: usize = 0;
        while j < styles.len()
            invariant
                i < speakers@.len(),
                styles == &speakers@[i as int].styles,
                j <= styles@.len(),
                forall|k: int| 0 <= k < j as int ==> #[trigger] styles@[k].id != style_id,
            decreases styles@.len() - j,
        {
            if styles[j].id == style_id {
                proof {
                    assert(speaker_has_style(speakers@[i as int], style_id));
                    assert(has_style(speakers@, style_id));
                }
                return Some((i, j));
            }
            j = j + 1;
        }
        proof {
            assert(!speaker_has_style(speakers@[i as int], style_id));
        }
        i = i + 1;
    }
    proof {
        assert(!has_style(speakers@, style_id)) by {
            if has_style(speakers@, style_id) {
                let k = choose|k: int|
                    0 <= k < speakers@.len() && #[trigger] speaker_has_style(
                        speakers@[k],
                        style_id,
                    );
                assert(!speaker_has_style(speakers@[k], style_id));
            }
        }
    }
    None
}

} // verus!
