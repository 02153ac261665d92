//! The windowed-carousel diff: which of the three visible slots must be
//! undrawn and redrawn on a scroll, a directory entry, or a directory exit.
//!
//! Exactly three slots are visible (previous / current / next). Each
//! operation emits undraw commands for the slot contents that leave or
//! change role, then draw commands for the new role assignment; only the
//! slot that becomes current shows extended metadata.

use vstd::prelude::*;

use crate::commands::{
    bottom_slot_icon_pos, bottom_slot_text_pos, file_index_pos, meta_modified_text_pos,
    meta_size_text_pos, middle_slot_icon_pos, middle_slot_text_pos, nav_path_pos,
    top_slot_icon_pos, top_slot_text_pos, CmdV, DrawCommand, Effect, EffectV, Pos,
};
use crate::fs_entry::{spec_icon_for, Entry, EntryV, IconKind, icon_for_entry};
use crate::text::{
    format_dir, format_index_label, initial_index_label, spec_dir_label, spec_index_label,
    spec_initial_index_label,
};
use crate::timefmt::{modified_label, spec_modified_label};
use crate::utils::{format_bytes, spec_bytes_label};

verus! {

/// The icon command of one carousel slot.
pub open spec fn icon_cmd(pos: Pos, e: EntryV, undraw: bool) -> CmdV {
    CmdV::DrawIcon { point: pos, kind: spec_icon_for(e.kind, e.extension), undraw }
}

/// The entry-name text command of one carousel slot.
pub open spec fn name_cmd(pos: Pos, e: EntryV, undraw: bool, is_selected: bool) -> CmdV {
    CmdV::Text { content: e.name, position: pos, undraw, is_selected }
}

/// Icon plus name of one carousel slot.
pub open spec fn slot_cmds(icon_pos: Pos, text_pos: Pos, e: EntryV, undraw: bool, sel: bool) -> Seq<
    CmdV,
> {
    seq![icon_cmd(icon_pos, e, undraw), name_cmd(text_pos, e, undraw, sel)]
}

/// The metadata texts only the current slot shows: size and modification
/// time.
pub open spec fn meta_cmds(e: EntryV, undraw: bool) -> Seq<CmdV> {
    seq![
        CmdV::Text {
            content: spec_bytes_label(e.size as nat),
            position: meta_size_text_pos(),
            undraw,
            is_selected: true,
        },
        CmdV::Text {
            content: spec_modified_label(e.mtime),
            position: meta_modified_text_pos(),
            undraw,
            is_selected: true,
        },
    ]
}

/// Everything the middle (current) slot shows: metadata, icon, name.
pub open spec fn middle_block(e: EntryV, undraw: bool, name_sel: bool) -> Seq<CmdV> {
    meta_cmds(e, undraw) + slot_cmds(
        middle_slot_icon_pos(),
        middle_slot_text_pos(),
        e,
        undraw,
        name_sel,
    )
}

/// An index-label text command in the navigation bar.
pub open spec fn index_label_cmd(num: nat, count: nat, undraw: bool) -> CmdV {
    CmdV::Text {
        content: spec_index_label(num, count),
        position: file_index_pos(),
        undraw,
        is_selected: false,
    }
}

/// A path-label text command in the navigation bar.
pub open spec fn path_label_cmd(dir: Seq<Seq<char>>, home: Seq<char>, undraw: bool) -> CmdV {
    CmdV::Text {
        content: spec_dir_label(dir, home),
        position: nav_path_pos(),
        undraw,
        is_selected: false,
    }
}

/// The undraw phase an upward scroll starts with: previous slot, current
/// slot with metadata, next slot, in that order, each only if the index
/// exists in the listing.
pub open spec fn scroll_up_undraws(l: Seq<EntryV>, i: int) -> Seq<CmdV> {
    (if i >= 1 && i - 1 < l.len() {
        slot_cmds(top_slot_icon_pos(), top_slot_text_pos(), l[i - 1], true, false)
    } else {
        Seq::empty()
    }) + (if 0 <= i < l.len() {
        middle_block(l[i], true, true)
    } else {
        Seq::empty()
    }) + (if 0 <= i + 1 < l.len() {
        slot_cmds(bottom_slot_icon_pos(), bottom_slot_text_pos(), l[i + 1], true, false)
    } else {
        Seq::empty()
    })
}

/// The draw phase of an upward scroll: the old current entry moves to the
/// bottom slot, the previous entry becomes current (with metadata), and the
/// entry two back fills the top slot.
pub open spec fn scroll_up_draws(l: Seq<EntryV>, i: int) -> Seq<CmdV> {
    (if 0 <= i < l.len() {
        slot_cmds(bottom_slot_icon_pos(), bottom_slot_text_pos(), l[i], false, true)
    } else {
        Seq::empty()
    }) + (if i >= 1 && i - 1 < l.len() {
        middle_block(l[i - 1], false, false)
    } else {
        Seq::empty()
    }) + (if i >= 2 && i - 2 < l.len() {
        slot_cmds(top_slot_icon_pos(), top_slot_text_pos(), l[i - 2], false, false)
    } else {
        Seq::empty()
    })
}

/// The full command sequence of an upward scroll from index `i` in a
/// listing the navigation model counts `c` entries in.
pub open spec fn scroll_up_cmds(l: Seq<EntryV>, i: int, c: int) -> Seq<CmdV> {
    scroll_up_undraws(l, i) + scroll_up_draws(l, i) + seq![
        index_label_cmd((i + 1) as nat, c as nat, true),
        index_label_cmd(i as nat, c as nat, false),
    ]
}

/// The undraw phase shared by downward scrolls, directory entries and
/// directory exits: next slot, current slot with metadata, previous slot.
pub open spec fn window_undraws(l: Seq<EntryV>, i: int) -> Seq<CmdV> {
    (if 0 <= i + 1 < l.len() {
        slot_cmds(bottom_slot_icon_pos(), bottom_slot_text_pos(), l[i + 1], true, false)
    } else {
        Seq::empty()
    }) + (if 0 <= i < l.len() {
        middle_block(l[i], true, true)
    } else {
        Seq::empty()
    }) + (if i >= 1 && i - 1 < l.len() {
        slot_cmds(top_slot_icon_pos(), top_slot_text_pos(), l[i - 1], true, false)
    } else {
        Seq::empty()
    })
}

/// The draw phase of a downward scroll: the old current entry moves to the
/// top slot, the next entry becomes current (with metadata), and the entry
/// two ahead fills the bottom slot.
pub open spec fn scroll_down_draws(l: Seq<EntryV>, i: int) -> Seq<CmdV> {
    (if 0 <= i < l.len() {
        slot_cmds(top_slot_icon_pos(), top_slot_text_pos(), l[i], false, true)
    } else {
        Seq::empty()
    }) + (if 0 <= i + 1 < l.len() {
        middle_block(l[i + 1], false, false)
    } else {
        Seq::empty()
    }) + (if 0 <= i + 2 < l.len() {
        slot_cmds(bottom_slot_icon_pos(), bottom_slot_text_pos(), l[i + 2], false, false)
    } else {
        Seq::empty()
    })
}

/// The full command sequence of a downward scroll from index `i`.
pub open spec fn scroll_down_cmds(l: Seq<EntryV>, i: int, c: int) -> Seq<CmdV> {
    window_undraws(l, i) + scroll_down_draws(l, i) + seq![
        index_label_cmd((i + 1) as nat, c as nat, true),
        index_label_cmd((i + 2) as nat, c as nat, false),
    ]
}

/// The draw phase after a directory was re-listed on entry or exit: fresh
/// index label, the second entry in the bottom slot, the first entry as
/// current with metadata, and the new path label.
pub open spec fn relist_draws(
    new_dir: Seq<Seq<char>>,
    home: Seq<char>,
    newl: Seq<EntryV>,
) -> Seq<CmdV> {
    seq![
        CmdV::Text {
            content: spec_initial_index_label(newl.len()),
            position: file_index_pos(),
            undraw: false,
            is_selected: false,
        },
    ] + (if 1 < newl.len() {
        slot_cmds(bottom_slot_icon_pos(), bottom_slot_text_pos(), newl[1], false, false)
    } else {
        Seq::empty()
    }) + (if 0 < newl.len() {
        middle_block(newl[0], false, true)
    } else {
        Seq::empty()
    }) + seq![path_label_cmd(new_dir, home, false)]
}

/// The full command sequence of entering the selected directory.
pub open spec fn enter_cmds(
    old_dir: Seq<Seq<char>>,
    new_dir: Seq<Seq<char>>,
    home: Seq<char>,
    l: Seq<EntryV>,
    i: int,
    c: int,
    newl: Seq<EntryV>,
) -> Seq<CmdV> {
    seq![index_label_cmd((i + 1) as nat, c as nat, true), path_label_cmd(old_dir, home, true)]
        + window_undraws(l, i) + relist_draws(new_dir, home, newl)
}

/// The full command sequence of exiting to the parent directory.
pub open spec fn exit_cmds(
    old_dir: Seq<Seq<char>>,
    new_dir: Seq<Seq<char>>,
    home: Seq<char>,
    l: Seq<EntryV>,
    i: int,
    c: int,
    newl: Seq<EntryV>,
) -> Seq<CmdV> {
    seq![
        (if c == 0 {
            index_label_cmd(0, c as nat, true)
        } else {
            index_label_cmd((i + 1) as nat, c as nat, true)
        }),
        path_label_cmd(old_dir, home, true),
    ] + window_undraws(l, i) + relist_draws(new_dir, home, newl)
}

/// A command's mathematical value wrapped as a draw effect.
pub open spec fn draws(s: Seq<CmdV>) -> Seq<EffectV> {
    s.map_values(|c: CmdV| EffectV::Draw(c))
}

fn push_text(out: &mut Vec<Effect>, content: String, pos: Pos, undraw: bool, sel: bool)
    ensures
        final(out).deep_view() == old(out).deep_view().push(
            EffectV::Draw(CmdV::Text { content: content@, position: pos, undraw, is_selected: sel }),
        ),
{
    let ghost c = CmdV::Text { content: content@, position: pos, undraw, is_selected: sel };
    out.push(Effect::Draw(DrawCommand::Text { content, position: pos, undraw, is_selected: sel }));
    proof {
        assert(out.deep_view() =~= old(out).deep_view().push(EffectV::Draw(c)));
    }
}

fn push_slot(out: &mut Vec<Effect>, icon_pos: Pos, text_pos: Pos, e: &Entry, undraw: bool, sel: bool)
    ensures
        final(out).deep_view() == old(out).deep_view() + draws(
            slot_cmds(icon_pos, text_pos, e@, undraw, sel),
        ),
{
    let kind = icon_for_entry(e);
    out.push(Effect::Draw(DrawCommand::DrawIcon { point: icon_pos, kind, undraw }));
    push_text(out, e.name.clone(), text_pos, undraw, sel);
    proof {
        assert(out.deep_view() =~= old(out).deep_view() + draws(
            slot_cmds(icon_pos, text_pos, e@, undraw, sel),
        ));
    }
}

fn push_middle_block(out: &mut Vec<Effect>, e: &Entry, undraw: bool, name_sel: bool)
    ensures
        final(out).deep_view() == old(out).deep_view() + draws(middle_block(e@, undraw, name_sel)),
{
    let size_text = format_bytes(e.size);
    push_text(out, size_text, Pos { x: 240, y: 130 }, undraw, true);
    let modified_text = modified_label(e.mtime);
    push_text(out, modified_text, Pos { x: 240, y: 150 }, undraw, true);
    push_slot(out, Pos { x: 20, y: 154 }, Pos { x: 50, y: 156 }, e, undraw, name_sel);
    proof {
        assert(out.deep_view() =~= old(out).deep_view() + draws(
            middle_block(e@, undraw, name_sel),
        ));
    }
}

fn push_window_undraws(out: &mut Vec<Effect>, listing: &Vec<Entry>, index: usize)
    requires
        index < usize::MAX,
    ensures
        final(out).deep_view() == old(out).deep_view() + draws(
            window_undraws(listing.deep_view(), index as int),
        ),
{
    let len = listing.len();
    if index + 1 < len {
        push_slot(out, Pos { x: 20, y: 204 }, Pos { x: 50, y: 206 }, &listing[index + 1], true, false);
    }
    if index < len {
        push_middle_block(out, &listing[index], true, true);
    }
    if index >= 1 && index - 1 < len {
        push_slot(out, Pos { x: 20, y: 104 }, Pos { x: 50, y: 106 }, &listing[index - 1], true, false);
    }
    proof {
        assert(out.deep_view() =~= old(out).deep_view() + draws(
            window_undraws(listing.deep_view(), index as int),
        ));
    }
}

fn push_relist_draws(
    out: &mut Vec<Effect>,
    new_dir: &Vec<String>,
    home: &String,
    new_listing: &Vec<Entry>,
)
    ensures
        final(out).deep_view() == old(out).deep_view() + draws(
            relist_draws(new_dir.deep_view(), home@, new_listing.deep_view()),
        ),
{
    let label = initial_index_label(new_listing.len() as u64);
    push_text(out, label, Pos { x: 46, y: 18 }, false, false);
    if 1 < new_listing.len() {
        push_slot(out, Pos { x: 20, y: 204 }, Pos { x: 50, y: 206 }, &new_listing[1], false, false);
    }
    if 0 < new_listing.len() {
        push_middle_block(out, &new_listing[0], false, true);
    }
    let path = format_dir(new_dir, home);
    push_text(out, path, Pos { x: 46, y: 28 }, false, false);
    proof {
        assert(out.deep_view() =~= old(out).deep_view() + draws(
            relist_draws(new_dir.deep_view(), home@, new_listing.deep_view()),
        ));
    }
}

/// Appends the draw effects of an upward scroll from `index`.
pub fn scroll_up_effects(out: &mut Vec<Effect>, listing: &Vec<Entry>, index: usize, count: usize)
    requires
        1 <= index < count,
    ensures
        final(out).deep_view() == old(out).deep_view() + draws(
            scroll_up_cmds(listing.deep_view(), index as int, count as int),
        ),
{
    let len = listing.len();
    if index - 1 < len {
        push_slot(out, Pos { x: 20, y: 104 }, Pos { x: 50, y: 106 }, &listing[index - 1], true, false);
    }
    if index < len {
        push_middle_block(out, &listing[index], true, true);
    }
    if index + 1 < len {
        push_slot(out, Pos { x: 20, y: 204 }, Pos { x: 50, y: 206 }, &listing[index + 1], true, false);
    }
    if index < len {
        push_slot(out, Pos { x: 20, y: 204 }, Pos { x: 50, y: 206 }, &listing[index], false, true);
    }
    if index - 1 < len {
        push_middle_block(out, &listing[index - 1], false, false);
    }
    if index >= 2 && index - 2 < len {
        push_slot(out, Pos { x: 20, y: 104 }, Pos { x: 50, y: 106 }, &listing[index - 2], false, false);
    }
    let lbl = format_index_label(index as u64 + 1, count as u64);
    push_text(out, lbl, Pos { x: 46, y: 18 }, true, false);
    let lbl = format_index_label(index as u64, count as u64);
    push_text(out, lbl, Pos { x: 46, y: 18 }, false, false);
    proof {
        assert(out.deep_view() =~= old(out).deep_view() + draws(
            scroll_up_cmds(listing.deep_view(), index as int, count as int),
        ));
    }
}

/// Appends the draw effects of a downward scroll from `index`.
pub fn scroll_down_effects(out: &mut Vec<Effect>, listing: &Vec<Entry>, index: usize, count: usize)
    requires
        index + 2 <= count,
    ensures
        final(out).deep_view() == old(out).deep_view() + draws(
            scroll_down_cmds(listing.deep_view(), index as int, count as int),
        ),
{
    let len = listing.len();
    push_window_undraws(out, listing, index);
    if index < len {
        push_slot(out, Pos { x: 20, y: 104 }, Pos { x: 50, y: 106 }, &listing[index], false, true);
    }
    if index + 1 < len {
        push_middle_block(out, &listing[index + 1], false, false);
    }
    if index + 2 < len {
        push_slot(out, Pos { x: 20, y: 204 }, Pos { x: 50, y: 206 }, &listing[index + 2], false, false);
    }
    let lbl = format_index_label(index as u64 + 1, count as u64);
    push_text(out, lbl, Pos { x: 46, y: 18 }, true, false);
    let lbl = format_index_label(index as u64 + 2, count as u64);
    push_text(out, lbl, Pos { x: 46, y: 18 }, false, false);
    proof {
        assert(out.deep_view() =~= old(out).deep_view() + draws(
            scroll_down_cmds(listing.deep_view(), index as int, count as int),
        ));
    }
}

/// Appends the draw effects of entering the selected directory.
pub fn enter_effects(
    out: &mut Vec<Effect>,
    old_dir: &Vec<String>,
    new_dir: &Vec<String>,
    home: &String,
    listing: &Vec<Entry>,
    index: usize,
    count: usize,
    new_listing: &Vec<Entry>,
)
    requires
        index < usize::MAX,
    ensures
        final(out).deep_view() == old(out).deep_view() + draws(
            enter_cmds(
                old_dir.deep_view(),
                new_dir.deep_view(),
                home@,
                listing.deep_view(),
                index as int,
                count as int,
                new_listing.deep_view(),
            ),
        ),
{
    let lbl = format_index_label(index as u64 + 1, count as u64);
    push_text(out, lbl, Pos { x: 46, y: 18 }, true, false);
    let path = format_dir(old_dir, home);
    push_text(out, path, Pos { x: 46, y: 28 }, true, false);
    push_window_undraws(out, listing, index);
    push_relist_draws(out, new_dir, home, new_listing);
    proof {
        assert(out.deep_view() =~= old(out).deep_view() + draws(
            enter_cmds(
                old_dir.deep_view(),
                new_dir.deep_view(),
                home@,
                listing.deep_view(),
                index as int,
                count as int,
                new_listing.deep_view(),
            ),
        ));
    }
}

/// Appends the draw effects of exiting to the parent directory.
pub fn exit_effects(
    out: &mut Vec<Effect>,
    old_dir: &Vec<String>,
    new_dir: &Vec<String>,
    home: &String,
    listing: &Vec<Entry>,
    index: usize,
    count: usize,
    new_listing: &Vec<Entry>,
)
    requires
        index < usize::MAX,
    ensures
        final(out).deep_view() == old(out).deep_view() + draws(
            exit_cmds(
                old_dir.deep_view(),
                new_dir.deep_view(),
                home@,
                listing.deep_view(),
                index as int,
                count as int,
                new_listing.deep_view(),
            ),
        ),
{
    let lbl = if count == 0 {
        format_index_label(0, count as u64)
    } else {
        format_index_label(index as u64 + 1, count as u64)
    };
    push_text(out, lbl, Pos { x: 46, y: 18 }, true, false);
    let path = format_dir(old_dir, home);
    push_text(out, path, Pos { x: 46, y: 28 }, true, false);
    push_window_undraws(out, listing, index);
    push_relist_draws(out, new_dir, home, new_listing);
    proof {
        assert(out.deep_view() =~= old(out).deep_view() + draws(
            exit_cmds(
                old_dir.deep_view(),
                new_dir.deep_view(),
                home@,
                listing.deep_view(),
                index as int,
                count as int,
                new_listing.deep_view(),
            ),
        ));
    }
}

/// The indices of the listing entries visible in the top, middle and
/// bottom carousel slots when `index` is current.
pub fn visible_window(len: usize, index: usize) -> (w: (Option<usize>, Option<usize>, Option<usize>))
    requires
        index < usize::MAX,
    ensures
        w.0 == (if index >= 1 && index - 1 < len {
            Some((index - 1) as usize)
        } else {
            None::<usize>
        }),
        w.1 == (if index < len {
            Some(index)
        } else {
            None::<usize>
        }),
        w.2 == (if index + 1 < len {
            Some((index + 1) as usize)
        } else {
            None::<usize>
        }),
{
    let top = if index >= 1 && index - 1 < len {
        Some(index - 1)
    } else {
        None
    };
    let middle = if index < len {
        Some(index)
    } else {
        None
    };
    let bottom = if index + 1 < len {
        Some(index + 1)
    } else {
        None
    };
    (top, middle, bottom)
}

/// What a command paints apart from its ink: the cell it targets and the
/// content placed there. Undraw/draw and highlight flags are stripped.
pub enum CellV {
    Text { content: Seq<char>, position: Pos },
    Icon { point: Pos, kind: IconKind },
    Whole(CmdV),
}

/// The cell a single command touches.
pub open spec fn cell_of(c: CmdV) -> CellV {
    match c {
        CmdV::Text { content, position, undraw, is_selected } => CellV::Text { content, position },
        CmdV::DrawIcon { point, kind, undraw } => CellV::Icon { point, kind },
        _ => CellV::Whole(c),
    }
}

/// The cells a command sequence touches, in order.
pub open spec fn cells(s: Seq<CmdV>) -> Seq<CellV> {
    s.map_values(|c: CmdV| cell_of(c))
}

proof fn lemma_cells_add(a: Seq<CmdV>, b: Seq<CmdV>)
    ensures
        cells(a + b) == cells(a) + cells(b),
{
    assert(cells(a + b) =~= cells(a) + cells(b));
}

/// Law: an upward scroll from index `i` followed by a downward scroll from
/// `i - 1` restores the carousel: the cells the downward scroll draws are
/// exactly the cells the upward scroll undrew, in the same order, and the
/// cells it undraws are exactly those the upward scroll drew.
pub proof fn lemma_scroll_round_trip(l: Seq<EntryV>, i: int)
    requires
        1 <= i,
    ensures
        cells(scroll_down_draws(l, i - 1)) == cells(scroll_up_undraws(l, i)),
        cells(window_undraws(l, i - 1)) == cells(scroll_up_draws(l, i)),
{
    lemma_cells_add(
        (if i >= 1 && i - 1 < l.len() {
            slot_cmds(top_slot_icon_pos(), top_slot_text_pos(), l[i - 1], true, false)
        } else {
            Seq::empty()
        }) + (if 0 <= i < l.len() {
            middle_block(l[i], true, true)
        } else {
            Seq::empty()
        }),
        (if 0 <= i + 1 < l.len() {
            slot_cmds(bottom_slot_icon_pos(), bottom_slot_text_pos(), l[i + 1], true, false)
        } else {
            Seq::empty()
        }),
    );
    assert(cells(scroll_down_draws(l, i - 1)) =~= cells(scroll_up_undraws(l, i)));
    assert(cells(window_undraws(l, i - 1)) =~= cells(scroll_up_draws(l, i)));
}

} // verus!
