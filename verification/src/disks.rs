//! The list of disks, read off the output of the tool that enumerates
//! block devices: one device per line, its name and its size separated by
//! white space.

use vstd::prelude::*;
use vstd::string::*;
use crate::text::{
    chars_of, find_line_end, line_end, skip_solid, skip_spaces, solid_start, space_start,
};

verus! {

/// A disk the machine has.
#[derive(Clone, Debug, PartialEq, Eq)]
pub struct DiskEntry {
    /// Path of the device node.
    pub device: String,
    /// Size as the enumeration prints it.
    pub size: String,
}

/// Mathematical content of a [`DiskEntry`].
pub ghost struct DiskView {
    pub device: Seq<char>,
    pub size: Seq<char>,
}

impl View for DiskEntry {
    type V = DiskView;

    open spec fn view(&self) -> DiskView {
        DiskView { device: self.device@, size: self.size@ }
    }
}

/// The contents of a list of entries.
pub open spec fn entries(v: Seq<DiskEntry>) -> Seq<DiskView> {
    Seq::new(v.len(), |i: int| v[i]@)
}

/// The disk described by the line `s[lo..hi]`: its first word is the
/// device's name, its second the size. A line with fewer than two words
/// describes none.
pub open spec fn disk_on_line(s: Seq<char>, lo: int, hi: int) -> Option<DiskView> {
    let a = solid_start(s, lo, hi);
    let b = space_start(s, a, hi);
    let c = solid_start(s, b, hi);
    let d = space_start(s, c, hi);
    if c < d {
        Some(DiskView { device: "/dev/"@ + s.subrange(a, b), size: s.subrange(c, d) })
    } else {
        None
    }
}

/// The disks described by the lines of `s` from the line start `from`
/// on, in order.
pub open spec fn disks_from(s: Seq<char>, from: int) -> Seq<DiskView>
    decreases s.len() - from,
{
    if from < 0 || from >= s.len() {
        Seq::empty()
    } else {
        let e = line_end(s, from);
        let head = match disk_on_line(s, from, e) {
            Some(d) => seq![d],
            None => Seq::empty(),
        };
        if from <= e < s.len() {
            head + disks_from(s, e + 1)
        } else {
            head
        }
    }
}

/// The disks a listing describes.
pub open spec fn disks_in(listing: Seq<char>) -> Seq<DiskView> {
    disks_from(listing, 0)
}

/// The text of `text[lo..hi]`.
fn text_between(text: &Vec<char>, lo: usize, hi: usize) -> (r: String)
    requires
        lo <= hi <= text.len(),
    ensures
        r@ == text@.subrange(lo as int, hi as int),
{
    let mut r: String = String::new();
    let mut i: usize = lo;
    while i < hi
        invariant
            lo <= i <= hi <= text.len(),
            r@ == text@.subrange(lo as int, i as int),
        decreases hi - i,
    {
        r.push(text[i]);
        assert(text@.subrange(lo as int, i + 1) =~= text@.subrange(lo as int, i as int).push(
            text@[i as int],
        ));
        i = i + 1;
    }
    assert(text@.subrange(lo as int, lo as int) =~= Seq::<char>::empty());
    r
}

/// Reads the list of disks off a listing. Lines that do not hold a name
/// and a size are passed over.
pub fn parse_disk_list(listing: &str) -> (disks: Vec<DiskEntry>)
    ensures
        entries(disks@) == disks_in(listing@),
{
    let text: Vec<char> = chars_of(listing);
    let mut disks: Vec<DiskEntry> = Vec::new();
    let mut from: usize = 0;
    assert(entries(disks@) =~= Seq::empty());
    while from < text.len()
        invariant
            from <= text.len(),
            text@ == listing@,
            disks_in(text@) == entries(disks@) + disks_from(text@, from as int),
        decreases text.len() - from,
    {
        let e: usize = find_line_end(&text, from);
        let a: usize = skip_spaces(&text, from, e);
        let b: usize = skip_solid(&text, a, e);
        let c: usize = skip_spaces(&text, b, e);
        let d: usize = skip_solid(&text, c, e);
        let ghost before = entries(disks@);
        if c < d {
            let name: String = text_between(&text, a, b);
            let mut device: String = String::from_str("/dev/");
            device.append(name.as_str());
            let size: String = text_between(&text, c, d);
            disks.push(DiskEntry { device, size });
            assert(entries(disks@) =~= before + seq![disk_on_line(text@, from as int, e as int)->0]);
        }
        if e == text.len() {
            assert(disks_in(text@) =~= entries(disks@));
            return disks;
        }
        proof {
            let head = match disk_on_line(text@, from as int, e as int) {
                Some(d) => seq![d],
                None => Seq::empty(),
            };
            assert(before + (head + disks_from(text@, e + 1)) =~= (before + head) + disks_from(
                text@,
                e + 1,
            ));
        }
        from = e + 1;
    }
    assert(disks_in(text@) =~= entries(disks@));
    disks
}

impl DiskEntry {
    pub open spec fn spec_label(self) -> Seq<char> {
        self.device@ + " ("@ + self.size@ + ")"@
    }

    /// The line by which the disk is shown: device and size.
    pub fn label(&self) -> (r: String)
        ensures
            r@ == self.spec_label(),
    {
        let mut r: String = String::from_str(self.device.as_str());
        r.append(" (");
        r.append(self.size.as_str());
        r.append(")");
        r
    }
}

} // verus!
