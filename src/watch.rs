//! Reading inotify event records and deciding what the two control-file watchers do.
use vstd::prelude::*;

verus! {

pub const IN_MODIFY: u32 = 0x0000_0002;
pub const IN_CLOSE_WRITE: u32 = 0x0000_0008;
pub const IN_CREATE: u32 = 0x0000_0100;
pub const IN_DELETE: u32 = 0x0000_0200;

/// The fixed part of a record: `wd`, `mask`, `cookie` and `len`, four bytes each.
pub const INOTIFY_HEADER_LEN: usize = 16;

/// One inotify event record. The integers are read little-endian, as the kernel lays them
/// out on the devices this daemon runs on.
#[derive(Debug)]
pub struct InotifyRecord {
    pub wd: i32,
    pub mask: u32,
    pub cookie: u32,
    /// The name field, NUL padding included; empty for an event on the watched path itself.
    pub name: Vec<u8>,
}

/// A record as plain values.
pub struct RecordView {
    pub wd: i32,
    pub mask: u32,
    pub cookie: u32,
    pub name: Seq<u8>,
}

impl View for InotifyRecord {
    type V = RecordView;

    open spec fn view(&self) -> RecordView {
        RecordView { wd: self.wd, mask: self.mask, cookie: self.cookie, name: self.name@ }
    }
}

/// The unsigned integer in the four bytes of `b` from `i` on, least significant first.
pub open spec fn le_u32(b: Seq<u8>, i: int) -> u32 {
    (b[i] as int + b[i + 1] as int * 0x100 + b[i + 2] as int * 0x1_0000 + b[i + 3] as int
        * 0x100_0000) as u32
}

/// The same four bytes read as a signed integer.
pub open spec fn le_i32(b: Seq<u8>, i: int) -> i32 {
    if le_u32(b, i) < 0x8000_0000 {
        le_u32(b, i) as i32
    } else {
        (le_u32(b, i) as int - 0x1_0000_0000) as i32
    }
}

/// The records that fill `b`, one after another, each a header and `len` bytes of name.
/// Reading stops at a record that does not fit in what is left.
pub open spec fn records_of(b: Seq<u8>) -> Seq<RecordView>
    decreases b.len(),
{
    if b.len() < 16 {
        Seq::empty()
    } else {
        let len = le_u32(b, 12) as int;
        if 16 + len > b.len() {
            Seq::empty()
        } else {
            seq![
                RecordView {
                    wd: le_i32(b, 0),
                    mask: le_u32(b, 4),
                    cookie: le_u32(b, 8),
                    name: b.subrange(16, 16 + len),
                },
            ] + records_of(b.skip(16 + len))
        }
    }
}

fn read_u32(b: &[u8], i: usize) -> (r: u32)
    requires
        i + 4 <= b@.len(),
    ensures
        r == le_u32(b@, i as int),
{
    b[i] as u32 + b[i + 1] as u32 * 0x100 + b[i + 2] as u32 * 0x1_0000 + b[i + 3] as u32
        * 0x100_0000
}

fn read_i32(b: &[u8], i: usize) -> (r: i32)
    requires
        i + 4 <= b@.len(),
    ensures
        r == le_i32(b@, i as int),
{
    let v = read_u32(b, i);
    if v < 0x8000_0000 {
        v as i32
    } else {
        (v as i64 - 0x1_0000_0000) as i32
    }
}

/// The event records in the bytes that one read of the inotify descriptor returned.
pub fn parse_inotify_records(buf: &[u8]) -> (r: Vec<InotifyRecord>)
    ensures
        r@.map_values(|x: InotifyRecord| x@) == records_of(buf@),
{
    let mut out: Vec<InotifyRecord> = Vec::new();
    let mut off: usize = 0;
    assert(buf@.skip(0) =~= buf@);
    assert(out@.map_values(|x: InotifyRecord| x@) =~= Seq::<RecordView>::empty());
    loop
        invariant
            off <= buf@.len(),
            out@.map_values(|x: InotifyRecord| x@) + records_of(buf@.skip(off as int))
                == records_of(buf@),
        decreases buf@.len() - off,
    {
        let ghost rest = buf@.skip(off as int);
        if buf.len() - off < INOTIFY_HEADER_LEN {
            assert(out@.map_values(|x: InotifyRecord| x@) + records_of(rest)
                =~= out@.map_values(|x: InotifyRecord| x@));
            return out;
        }
        let wd = read_i32(buf, off);
        let mask = read_u32(buf, off + 4);
        let cookie = read_u32(buf, off + 8);
        let len = read_u32(buf, off + 12) as usize;
        assert(le_u32(rest, 12) == le_u32(buf@, off + 12));
        if len > buf.len() - off - INOTIFY_HEADER_LEN {
            assert(out@.map_values(|x: InotifyRecord| x@) + records_of(rest)
                =~= out@.map_values(|x: InotifyRecord| x@));
            return out;
        }
        let start = off + INOTIFY_HEADER_LEN;
        let end = start + len;
        let mut name: Vec<u8> = Vec::new();
        let mut k: usize = start;
        while k < end
            invariant
                end == start + len,
                start <= k <= end <= buf@.len(),
                name@ == buf@.subrange(start as int, k as int),
            decreases end - k,
        {
            name.push(buf[k]);
            assert(name@ =~= buf@.subrange(start as int, k + 1));
            k += 1;
        }
        let rec = InotifyRecord { wd, mask, cookie, name };
        proof {
            assert(le_u32(rest, 0) == le_u32(buf@, off as int));
            assert(le_u32(rest, 4) == le_u32(buf@, off + 4));
            assert(le_u32(rest, 8) == le_u32(buf@, off + 8));
            assert(rest.subrange(16, 16 + len) =~= buf@.subrange(start as int, start + len));
            assert(rest.skip(16 + len) =~= buf@.skip(start + len));
        }
        let ghost before = out@.map_values(|x: InotifyRecord| x@);
        out.push(rec);
        assert(out@.map_values(|x: InotifyRecord| x@) =~= before.push(rec@));
        off = start + len;
    }
}

/// `n` without its trailing NUL bytes.
pub open spec fn trim_nul(n: Seq<u8>) -> Seq<u8>
    decreases n.len(),
{
    if n.len() > 0 && n.last() == 0 {
        trim_nul(n.drop_last())
    } else {
        n
    }
}

/// A record's name field names the file `file`.
pub open spec fn names_file(name: Seq<u8>, file: Seq<u8>) -> bool {
    name.len() > 0 && trim_nul(name) == file
}

/// Whether the name field `name` names the file `file`.
fn name_is(name: &Vec<u8>, file: &[u8]) -> (r: bool)
    ensures
        r == names_file(name@, file@),
{
    if name.len() == 0 {
        return false;
    }
    let mut e = name.len();
    assert(name@.take(e as int) =~= name@);
    while e > 0 && name[e - 1] == 0
        invariant
            e <= name.len(),
            trim_nul(name@.take(e as int)) == trim_nul(name@),
        decreases e,
    {
        assert(name@.take(e as int).drop_last() =~= name@.take(e - 1));
        e -= 1;
    }
    assert(trim_nul(name@.take(e as int)) == name@.take(e as int)) by {
        if e > 0 {
            assert(name@.take(e as int).last() == name@[e - 1]);
        }
    }
    if e != file.len() {
        return false;
    }
    let mut k: usize = 0;
    while k < e
        invariant
            e == file@.len(),
            e <= name.len(),
            name.len() > 0,
            trim_nul(name@) == name@.take(e as int),
            k <= e,
            forall|j: int| 0 <= j < k ==> name@[j] == file@[j],
        decreases e - k,
    {
        if name[k] != file[k] {
            assert(name@.take(e as int)[k as int] != file@[k as int]);
            return false;
        }
        k += 1;
    }
    assert(name@.take(e as int) =~= file@);
    true
}

/// What a batch of records means to the `free` watcher.
#[derive(Clone, Copy, Debug, PartialEq, Eq, Structural)]
pub struct FreeWatchScan {
    /// Some record is a close-after-write (of the `free` file).
    pub free_changed: bool,
    /// Some creation or deletion record names the `auto` flag file.
    pub auto_changed: bool,
}

pub open spec fn is_close_write(r: RecordView) -> bool {
    r.mask & IN_CLOSE_WRITE != 0
}

pub open spec fn is_auto_change(r: RecordView, auto_name: Seq<u8>) -> bool {
    r.mask & (IN_CREATE | IN_DELETE) != 0 && names_file(r.name, auto_name)
}

/// Scans a batch of records for a write to `free` and for the `auto` flag file, whose
/// name in the module directory is `auto_name`, appearing or going.
pub fn scan_free_events(records: &Vec<InotifyRecord>, auto_name: &[u8]) -> (r: FreeWatchScan)
    ensures
        r.free_changed == exists|i: int|
            0 <= i < records@.len() && is_close_write(#[trigger] records@[i]@),
        r.auto_changed == exists|i: int|
            0 <= i < records@.len() && is_auto_change(#[trigger] records@[i]@, auto_name@),
{
    let mut free_changed = false;
    let mut auto_changed = false;
    let mut i: usize = 0;
    while i < records.len()
        invariant
            i <= records@.len(),
            free_changed == exists|j: int| 0 <= j < i && is_close_write(#[trigger] records@[j]@),
            auto_changed == exists|j: int|
                0 <= j < i && is_auto_change(#[trigger] records@[j]@, auto_name@),
        decreases records@.len() - i,
    {
        let rec = &records[i];
        let ghost v = records@[i as int]@;
        assert(rec@ == v);
        if rec.mask & IN_CLOSE_WRITE != 0 {
            assert(is_close_write(records@[i as int]@));
            free_changed = true;
        }
        if rec.mask & (IN_CREATE | IN_DELETE) != 0 && name_is(&rec.name, auto_name) {
            assert(is_auto_change(records@[i as int]@, auto_name@));
            auto_changed = true;
        }
        assert(free_changed == exists|j: int|
            0 <= j < i + 1 && is_close_write(#[trigger] records@[j]@)) by {
            if !is_close_write(v) {
                assert forall|j: int| 0 <= j < i + 1 && is_close_write(#[trigger] records@[j]@)
                    implies 0 <= j < i && is_close_write(records@[j]@) by {}
            }
        }
        assert(auto_changed == exists|j: int|
            0 <= j < i + 1 && is_auto_change(#[trigger] records@[j]@, auto_name@)) by {
            if !is_auto_change(v, auto_name@) {
                assert forall|j: int|
                    0 <= j < i + 1 && is_auto_change(#[trigger] records@[j]@, auto_name@)
                    implies 0 <= j < i && is_auto_change(records@[j]@, auto_name@) by {}
            }
        }
        i += 1;
    }
    FreeWatchScan { free_changed, auto_changed }
}

/// The `disable` watcher's memory of whether the `disable` file exists.
#[derive(Clone, Copy, Debug, PartialEq, Eq, Structural)]
pub struct DisableWatch {
    pub disable_exists: bool,
}

impl DisableWatch {
    pub fn new(disable_exists: bool) -> (r: DisableWatch)
        ensures
            r.disable_exists == disable_exists,
    {
        DisableWatch { disable_exists }
    }

    /// After any event in the module directory, takes whether `disable` exists now.
    /// Returns the new value when it differs from the remembered one, which is then
    /// updated; returns nothing otherwise.
    pub fn on_directory_event(&mut self, now_exists: bool) -> (r: Option<bool>)
        ensures
            final(self).disable_exists == now_exists,
            r == (if now_exists != old(self).disable_exists { Some(now_exists) } else { None }),
    {
        let changed = now_exists != self.disable_exists;
        self.disable_exists = now_exists;
        if changed { Some(now_exists) } else { None }
    }
}

} // verus!
