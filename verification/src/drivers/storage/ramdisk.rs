//! RAM disk storage driver: a 4 MB byte array addressed in 512-byte sectors.
use vstd::prelude::*;

verus! {

/// Bytes per sector.
pub const SECTOR_SIZE: usize = 512;
/// Size of the disk in bytes (4 MB).
pub const DISK_SIZE: usize = 4194304;

/// The RAM disk: absent until initialized.
pub struct RamDisk {
    data: Option<Vec<u8>>,
}

/// The disk bytes after writing `buffer` at byte `start`.
pub open spec fn written(data: Seq<u8>, start: int, buffer: Seq<u8>) -> Seq<u8> {
    data.subrange(0, start) + buffer + data.subrange(start + buffer.len(), data.len() as int)
}

impl RamDisk {
    /// An initialized disk holds exactly `DISK_SIZE` bytes.
    #[verifier::type_invariant]
    pub open spec fn wf(&self) -> bool {
        self.contents() matches Some(d) ==> d.len() == DISK_SIZE
    }

    /// The disk's bytes, or `None` before initialization.
    pub closed spec fn contents(&self) -> Option<Seq<u8>> {
        match self.data {
            Some(d) => Some(d@),
            None => None,
        }
    }

    /// A disk that has not been initialized yet.
    pub fn new() -> (d: Self)
        ensures
            d.wf(),
            d.contents() is None,
    {
        RamDisk { data: None }
    }
}

/// Initialize the RAM disk: 4 MB of zeros.
pub fn init(disk: &mut RamDisk)
    ensures
        final(disk).wf(),
        final(disk).contents() matches Some(d) && d.len() == DISK_SIZE && forall|i: int|
            0 <= i < DISK_SIZE ==> #[trigger] d[i] == 0,
{
    let mut data: Vec<u8> = Vec::with_capacity(DISK_SIZE);
    let mut i: usize = 0;
    while i < DISK_SIZE
        invariant
            i <= DISK_SIZE,
            data@.len() == i,
            forall|k: int| 0 <= k < i ==> #[trigger] data@[k] == 0,
        decreases DISK_SIZE - i,
    {
        data.push(0);
        i += 1;
    }
    disk.data = Some(data);
}

/// Read `buffer.len()` bytes starting at sector `sector`.
pub fn read(disk: &RamDisk, sector: usize, buffer: &mut [u8]) -> (r: Result<(), &'static str>)
    requires
        sector * SECTOR_SIZE + old(buffer)@.len() <= usize::MAX,
    ensures
        disk.wf(),
        disk.contents() is None ==> r == Err::<(), &'static str>("RamDisk not initialized")
            && final(buffer)@ == old(buffer)@,
        disk.contents() matches Some(d) ==> {
            let start = sector * SECTOR_SIZE;
            if start + old(buffer)@.len() > d.len() {
                r == Err::<(), &'static str>("Read out of bounds") && final(buffer)@ == old(buffer)@
            } else {
                r == Ok::<(), &'static str>(()) && final(buffer)@ == d.subrange(
                    start,
                    start + old(buffer)@.len(),
                )
            }
        },
{
    proof {
        use_type_invariant(disk);
    }
    let data = match &disk.data {
        Some(d) => d,
        None => return Err("RamDisk not initialized"),
    };
    let start = sector * SECTOR_SIZE;
    if start + buffer.len() > data.len() {
        return Err("Read out of bounds");
    }
    let n = buffer.len();
    let mut i: usize = 0;
    while i < n
        invariant
            n == buffer@.len(),
            start + n <= data@.len(),
            start + n <= usize::MAX,
            i <= n,
            forall|k: int| 0 <= k < i ==> buffer@[k] == data@[start + k],
        decreases n - i,
    {
        buffer[i] = data[start + i];
        i += 1;
    }
    assert(buffer@ =~= data@.subrange(start as int, start + n));
    Ok(())
}

/// Write `buffer` starting at sector `sector`.
pub fn write(disk: &mut RamDisk, sector: usize, buffer: &[u8]) -> (r: Result<(), &'static str>)
    requires
        sector * SECTOR_SIZE + buffer@.len() <= usize::MAX,
    ensures
        old(disk).wf(),
        final(disk).wf(),
        old(disk).contents() is None ==> r == Err::<(), &'static str>("RamDisk not initialized")
            && final(disk).contents() == old(disk).contents(),
        old(disk).contents() matches Some(d) ==> {
            let start = sector * SECTOR_SIZE;
            if start + buffer@.len() > d.len() {
                r == Err::<(), &'static str>("Write out of bounds") && final(disk).contents()
                    == old(disk).contents()
            } else {
                r == Ok::<(), &'static str>(()) && final(disk).contents() == Some(
                    written(d, start, buffer@),
                )
            }
        },
{
    proof {
        use_type_invariant(&*disk);
    }
    let start = sector * SECTOR_SIZE;
    let mut slot: Option<Vec<u8>> = None;
    std::mem::swap(&mut slot, &mut disk.data);
    match slot {
        None => Err("RamDisk not initialized"),
        Some(mut data) => {
            if start + buffer.len() > data.len() {
                disk.data = Some(data);
                return Err("Write out of bounds");
            }
            let ghost before = data@;
            let n = buffer.len();
            let mut i: usize = 0;
            while i < n
                invariant
                    n == buffer@.len(),
                    start + n <= data@.len(),
                    start + n <= usize::MAX,
                    data@.len() == before.len(),
                    i <= n,
                    forall|k: int| 0 <= k < i ==> data@[start + k] == buffer@[k],
                    forall|k: int|
                        0 <= k < data@.len() && !(start <= k < start + i) ==> data@[k]
                            == before[k],
                decreases n - i,
            {
                data.set(start + i, buffer[i]);
                i += 1;
            }
            assert(data@ =~= written(before, start as int, buffer@));
            disk.data = Some(data);
            Ok(())
        },
    }
}

/// A read of the range just written returns exactly the bytes written.
pub proof fn lemma_read_back_written(d: Seq<u8>, start: int, buffer: Seq<u8>)
    requires
        0 <= start,
        start + buffer.len() <= d.len(),
    ensures
        written(d, start, buffer).len() == d.len(),
        written(d, start, buffer).subrange(start, start + buffer.len()) == buffer,
{
    assert(written(d, start, buffer).subrange(start, start + buffer.len()) =~= buffer);
}

/// A write leaves every byte outside its range as it was.
pub proof fn lemma_write_preserves_rest(d: Seq<u8>, start: int, buffer: Seq<u8>, k: int)
    requires
        0 <= start,
        start + buffer.len() <= d.len(),
        0 <= k < d.len(),
        !(start <= k < start + buffer.len()),
    ensures
        written(d, start, buffer)[k] == d[k],
{
}

} // verus!
