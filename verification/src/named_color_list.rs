//! A list of named spot colors, each carrying its PCS coordinates and its
//! device colorant values.

use vstd::prelude::*;
use crate::MAX_PATH;

verus! {

/// One named color: its name as raw bytes, its three PCS coordinates, and
/// one colorant value per device channel.
#[derive(Debug)]
pub struct NamedColor {
    pub name: Vec<u8>,
    pub pcs: [u16; 3],
    pub device_colorant: [u16; 16],
}

/// The list of named colors of one profile.
#[derive(Debug)]
pub struct NamedColorList {
    pub num_colors: u32,
    pub colorant_count: u32,
    pub prefix: String,
    pub suffix: String,
    pub list: Vec<NamedColor>,
}

/// The name bytes that are kept: everything up to the name-length cap.
pub open spec fn kept_name(name: Seq<u8>) -> Seq<u8> {
    if name.len() >= MAX_PATH {
        name.take(MAX_PATH as int)
    } else {
        name
    }
}

impl NamedColorList {
    /// An empty list.
    pub fn new() -> (r: NamedColorList)
        ensures
            r.num_colors == 0,
            r.colorant_count == 0,
            r.prefix@.len() == 0,
            r.suffix@.len() == 0,
            r.list@.len() == 0,
    {
        NamedColorList {
            num_colors: 0,
            colorant_count: 0,
            prefix: String::new(),
            suffix: String::new(),
            list: Vec::new(),
        }
    }

    /// Appends one named color.  A name longer than the cap is cut there;
    /// coordinates or colorants not given are stored as zero.
    pub fn append(
        &mut self,
        name: Vec<u8>,
        pcs: Option<[u16; 3]>,
        colorant: Option<[u16; 16]>,
    )
        ensures
            final(self).num_colors == old(self).num_colors,
            final(self).colorant_count == old(self).colorant_count,
            final(self).prefix == old(self).prefix,
            final(self).suffix == old(self).suffix,
            final(self).list@.len() == old(self).list@.len() + 1,
            forall|k: int|
                0 <= k < old(self).list@.len() ==> final(self).list@[k] == old(self).list@[k],
            final(self).list@.last().name@ == kept_name(name@),
            final(self).list@.last().pcs@ == match pcs {
                Some(p) => p@,
                None => seq![0u16, 0u16, 0u16],
            },
            final(self).list@.last().device_colorant@ == match colorant {
                Some(c) => c@,
                None => Seq::new(16, |i: int| 0u16),
            },
    {
        let colorant = match colorant {
            Some(c) => c,
            None => [0u16; 16],
        };
        let pcs = match pcs {
            Some(p) => p,
            None => [0u16; 3],
        };
        let mut name = name;
        if name.len() >= MAX_PATH {
            name.truncate(MAX_PATH);
        }
        self.list.push(NamedColor { name, pcs, device_colorant: colorant });
    }

    /// How many named colors the list holds.
    pub fn count(&self) -> (r: usize)
        ensures
            r == self.list@.len(),
    {
        self.list.len()
    }

    /// The named color at the given position, copied out.
    pub fn get(&self, color_number: usize) -> (r: Option<NamedColor>)
        ensures
            match r {
                Some(c) => {
                    &&& color_number < self.list@.len()
                    &&& c.name@ == self.list@[color_number as int].name@
                    &&& c.pcs == self.list@[color_number as int].pcs
                    &&& c.device_colorant == self.list@[color_number as int].device_colorant
                },
                None => color_number >= self.list@.len(),
            },
    {
        if color_number >= self.list.len() {
            return None;
        }
        let entry = &self.list[color_number];
        let mut name: Vec<u8> = Vec::new();
        let mut i: usize = 0;
        while i < entry.name.len()
            invariant
                i <= entry.name@.len(),
                name@ == entry.name@.take(i as int),
        decreases entry.name@.len() - i,
        {
            let b = entry.name[i];
            name.push(b);
            proof {
                assert(name@ =~= entry.name@.take(i + 1));
            }
            i = i + 1;
        }
        proof {
            assert(entry.name@.take(entry.name@.len() as int) =~= entry.name@);
        }
        Some(NamedColor { name, pcs: entry.pcs, device_colorant: entry.device_colorant })
    }
}

} // verus!
