//! The node-control endpoints: memory statistics and in-flight commands.

use vstd::prelude::*;
use crate::rpc_error::JsonRpcError;
use crate::text::{debug_quoted, debug_str, decimal, push_decimal, push_signed_decimal, signed_decimal, str_eq};

verus! {

/// A failure of a node-control request: always a client mistake.
#[derive(Debug)]
pub enum ControlError {
    /// `getmemoryinfo` was called with a mode other than `stats` or `mallocinfo`.
    UnknownMemInfoMode { mode: String },
}

impl ControlError {
    /// The rendered message of the error.
    pub open spec fn rendered(&self) -> Seq<char> {
        match self {
            ControlError::UnknownMemInfoMode { mode } => "unknown getmemoryinfo mode "@
                + debug_quoted(mode@) + "; expected \"stats\" or \"mallocinfo\""@,
        }
    }

    /// Renders the error.
    pub fn to_string(&self) -> (s: String)
        ensures
            s@ == self.rendered(),
    {
        match self {
            ControlError::UnknownMemInfoMode { mode } => {
                let mut s = String::from_str("unknown getmemoryinfo mode ");
                let quoted = debug_str(mode.as_str());
                s.append(quoted.as_str());
                s.append("; expected \"stats\" or \"mallocinfo\"");
                s
            },
        }
    }

    /// The failure this error wraps: none, for it describes a bad request
    /// or a broken lock rather than wrapping a lower-level failure.
    pub fn source(&self) -> (r: Option<()>)
        ensures
            r is None,
    {
        None
    }
}

impl From<ControlError> for JsonRpcError {
    fn from(e: ControlError) -> (r: JsonRpcError) {
        match e {
            ControlError::UnknownMemInfoMode { .. } => JsonRpcError::InvalidMemInfoMode,
        }
    }
}

impl vstd::std_specs::convert::FromSpecImpl<ControlError> for JsonRpcError {
    open spec fn obeys_from_spec() -> bool {
        true
    }

    open spec fn from_spec(e: ControlError) -> JsonRpcError {
        JsonRpcError::InvalidMemInfoMode
    }
}

/// The report that `getmemoryinfo` produces.
#[derive(Debug)]
pub enum MemInfoMode {
    /// Allocator statistics as numbers.
    Stats,
    /// Allocator statistics as an XML document.
    MallocInfo,
}

/// The numbers that `getmemoryinfo` reports in `stats` mode.
#[derive(Debug)]
pub struct MemInfoLocked {
    pub used: u64,
    pub free: u64,
    pub total: u64,
    pub locked: u64,
    pub chunks_used: u64,
    pub chunks_free: u64,
}

/// The `stats` report of `getmemoryinfo`.
#[derive(Debug)]
pub struct GetMemInfoStats {
    pub locked: MemInfoLocked,
}

/// The result of `getmemoryinfo`.
#[derive(Debug)]
pub enum GetMemInfoRes {
    Stats(GetMemInfoStats),
    MallocInfo(String),
}

impl Default for MemInfoLocked {
    fn default() -> (r: Self)
        ensures
            r == zero_locked(),
    {
        MemInfoLocked { used: 0, free: 0, total: 0, locked: 0, chunks_used: 0, chunks_free: 0 }
    }
}

impl Default for GetMemInfoStats {
    fn default() -> (r: Self)
        ensures
            r.locked == zero_locked(),
    {
        GetMemInfoStats { locked: MemInfoLocked::default() }
    }
}

/// The counters of glibc's `mallinfo`, as C `int`s.
#[derive(Debug)]
pub struct MallInfo {
    pub uordblks: i32,
    pub fordblks: i32,
    pub hblkhd: i32,
    pub ordblks: i32,
    pub smblks: i32,
}

/// The counters of a macOS malloc zone.
#[derive(Debug)]
pub struct ZoneStatistics {
    pub blocks_in_use: u32,
    pub size_in_use: usize,
    pub size_allocated: usize,
}

/// What the platform's allocator can tell about itself.
#[derive(Debug)]
pub enum AllocatorStats {
    /// glibc's `mallinfo`.
    Glibc(MallInfo),
    /// The default macOS malloc zone.
    MallocZone(ZoneStatistics),
    /// No allocator statistics on this platform.
    Unavailable,
}

/// Statistics of zero everywhere.
pub open spec fn zero_locked() -> MemInfoLocked {
    MemInfoLocked { used: 0, free: 0, total: 0, locked: 0, chunks_used: 0, chunks_free: 0 }
}

/// A C `int` reinterpreted as a `u64`, as `as u64` does: negative values wrap.
pub open spec fn wrap_u64(x: i32) -> u64 {
    if x >= 0 {
        x as u64
    } else {
        (x + 0x1_0000_0000_0000_0000) as u64
    }
}

/// `i32` addition clamped to the bounds of `i32`.
pub open spec fn saturating_add_i32(x: i32, y: i32) -> i32 {
    if x + y > i32::MAX {
        i32::MAX
    } else if x + y < i32::MIN {
        i32::MIN
    } else {
        (x + y) as i32
    }
}

/// `i32::saturating_add` clamps the sum to the bounds of `i32`.
pub assume_specification[ <i32>::saturating_add ](x: i32, y: i32) -> (r: i32)
    ensures
        r == saturating_add_i32(x, y),
;

/// The `stats` numbers for the given allocator statistics.
pub open spec fn locked_stats(stats: AllocatorStats) -> MemInfoLocked {
    match stats {
        AllocatorStats::Glibc(m) => MemInfoLocked {
            used: wrap_u64(m.uordblks),
            free: wrap_u64(m.fordblks),
            total: wrap_u64(saturating_add_i32(m.uordblks, m.fordblks)),
            locked: wrap_u64(m.hblkhd),
            chunks_used: wrap_u64(m.ordblks),
            chunks_free: wrap_u64(m.smblks),
        },
        AllocatorStats::MallocZone(z) => MemInfoLocked {
            used: z.size_in_use as u64,
            free: (if z.size_allocated >= z.size_in_use {
                z.size_allocated - z.size_in_use
            } else {
                0
            }) as u64,
            total: z.size_allocated as u64,
            locked: z.size_allocated as u64,
            chunks_used: z.blocks_in_use as u64,
            chunks_free: 0,
        },
        AllocatorStats::Unavailable => zero_locked(),
    }
}

/// The `mallocinfo` XML document for the given allocator statistics.
pub open spec fn malloc_xml(stats: AllocatorStats) -> Seq<char> {
    match stats {
        AllocatorStats::Glibc(m) => "<malloc version=\"2.0\"><heap nr=\"1\"><allocated>"@
            + signed_decimal(m.hblkhd as int) + "</allocated><free>"@ + signed_decimal(
            m.uordblks as int,
        ) + "</free><total>"@ + signed_decimal(m.fordblks as int) + "</total><locked>"@
            + signed_decimal(saturating_add_i32(m.uordblks, m.fordblks) as int)
            + "</locked><chunks nr=\""@ + signed_decimal(m.hblkhd as int) + "\"><used>"@
            + signed_decimal(m.ordblks as int) + "</used><free>"@ + signed_decimal(
            m.smblks as int,
        ) + "</free></chunks></heap></malloc>"@,
        AllocatorStats::MallocZone(z) => "<malloc version=\"2.0\"><heap nr=\"1\"><allocated>"@
            + decimal(z.size_allocated as nat) + "</allocated><free>"@ + decimal(
            z.size_in_use as nat,
        ) + "</free><total>"@ + decimal(
            (if z.size_allocated >= z.size_in_use {
                z.size_allocated - z.size_in_use
            } else {
                0
            }) as nat,
        ) + "</total><locked>"@ + decimal(z.size_allocated as nat) + "</locked><chunks nr=\""@
            + decimal(z.size_allocated as nat) + "\"><used>"@ + decimal(z.blocks_in_use as nat)
            + "</used><free>"@ + decimal(0) + "</free></chunks></heap></malloc>"@,
        AllocatorStats::Unavailable => Seq::empty(),
    }
}

fn wrap_to_u64(x: i32) -> (r: u64)
    ensures
        r == wrap_u64(x),
{
    if x >= 0 {
        x as u64
    } else {
        let magnitude_less_one = (-(x as i64) - 1) as u64;
        u64::MAX - magnitude_less_one
    }
}

/// Reads the mode of a `getmemoryinfo` request: only `stats` and
/// `mallocinfo` are defined, anything else is refused by name.
pub fn mem_info_mode(mode: &str) -> (r: Result<MemInfoMode, ControlError>)
    ensures
        mode@ == "stats"@ ==> r matches Ok(MemInfoMode::Stats),
        mode@ == "mallocinfo"@ ==> r matches Ok(MemInfoMode::MallocInfo),
        mode@ != "stats"@ && mode@ != "mallocinfo"@ ==> (r matches Err(
            ControlError::UnknownMemInfoMode { mode: m },
        ) && m@ == mode@),
{
    proof {
        reveal_strlit("stats");
        reveal_strlit("mallocinfo");
        assert("stats"@.len() != "mallocinfo"@.len());
    }
    if str_eq(mode, "stats") {
        Ok(MemInfoMode::Stats)
    } else if str_eq(mode, "mallocinfo") {
        Ok(MemInfoMode::MallocInfo)
    } else {
        Err(ControlError::UnknownMemInfoMode { mode: mode.to_owned() })
    }
}

fn push_glibc_xml(s: &mut String, m: &MallInfo)
    ensures
        final(s)@ == old(s)@ + malloc_xml(AllocatorStats::Glibc(*m)),
{
    let total = m.uordblks.saturating_add(m.fordblks);
    s.append("<malloc version=\"2.0\"><heap nr=\"1\"><allocated>");
    push_signed_decimal(s, m.hblkhd as i64);
    s.append("</allocated><free>");
    push_signed_decimal(s, m.uordblks as i64);
    s.append("</free><total>");
    push_signed_decimal(s, m.fordblks as i64);
    s.append("</total><locked>");
    push_signed_decimal(s, total as i64);
    s.append("</locked><chunks nr=\"");
    push_signed_decimal(s, m.hblkhd as i64);
    s.append("\"><used>");
    push_signed_decimal(s, m.ordblks as i64);
    s.append("</used><free>");
    push_signed_decimal(s, m.smblks as i64);
    s.append("</free></chunks></heap></malloc>");
    assert(final(s)@ =~= old(s)@ + malloc_xml(AllocatorStats::Glibc(*m)));
}

fn push_zone_xml(s: &mut String, z: &ZoneStatistics)
    ensures
        final(s)@ == old(s)@ + malloc_xml(AllocatorStats::MallocZone(*z)),
{
    let free = z.size_allocated.saturating_sub(z.size_in_use);
    s.append("<malloc version=\"2.0\"><heap nr=\"1\"><allocated>");
    push_decimal(s, z.size_allocated as u64);
    s.append("</allocated><free>");
    push_decimal(s, z.size_in_use as u64);
    s.append("</free><total>");
    push_decimal(s, free as u64);
    s.append("</total><locked>");
    push_decimal(s, z.size_allocated as u64);
    s.append("</locked><chunks nr=\"");
    push_decimal(s, z.size_allocated as u64);
    s.append("\"><used>");
    push_decimal(s, z.blocks_in_use as u64);
    s.append("</used><free>");
    push_decimal(s, 0);
    s.append("</free></chunks></heap></malloc>");
    assert(final(s)@ =~= old(s)@ + malloc_xml(AllocatorStats::MallocZone(*z)));
}

/// The `getmemoryinfo` report of the given kind for the given allocator statistics.
pub fn memory_info(mode: MemInfoMode, stats: &AllocatorStats) -> (r: GetMemInfoRes)
    ensures
        mode is Stats ==> (r matches GetMemInfoRes::Stats(s) && s.locked == locked_stats(*stats)),
        mode is MallocInfo ==> (r matches GetMemInfoRes::MallocInfo(x) && x@ == malloc_xml(
            *stats,
        )),
{
    match mode {
        MemInfoMode::Stats => {
            let locked = match stats {
                AllocatorStats::Glibc(m) => MemInfoLocked {
                    used: wrap_to_u64(m.uordblks),
                    free: wrap_to_u64(m.fordblks),
                    total: wrap_to_u64(m.uordblks.saturating_add(m.fordblks)),
                    locked: wrap_to_u64(m.hblkhd),
                    chunks_used: wrap_to_u64(m.ordblks),
                    chunks_free: wrap_to_u64(m.smblks),
                },
                AllocatorStats::MallocZone(z) => MemInfoLocked {
                    used: z.size_in_use as u64,
                    free: z.size_allocated.saturating_sub(z.size_in_use) as u64,
                    total: z.size_allocated as u64,
                    locked: z.size_allocated as u64,
                    chunks_used: z.blocks_in_use as u64,
                    chunks_free: 0,
                },
                AllocatorStats::Unavailable => MemInfoLocked::default(),
            };
            GetMemInfoRes::Stats(GetMemInfoStats { locked })
        },
        MemInfoMode::MallocInfo => {
            let mut s = String::new();
            match stats {
                AllocatorStats::Glibc(m) => push_glibc_xml(&mut s, m),
                AllocatorStats::MallocZone(z) => push_zone_xml(&mut s, z),
                AllocatorStats::Unavailable => {},
            }
            assert(s@ =~= malloc_xml(*stats));
            GetMemInfoRes::MallocInfo(s)
        },
    }
}

/// Answers `getmemoryinfo`: `stats` gives the numbers and `mallocinfo` the
/// XML document for the given allocator statistics; any other mode is
/// refused with [`JsonRpcError::InvalidMemInfoMode`].
pub fn get_memory_info(mode: &str, stats: &AllocatorStats) -> (r: Result<
    GetMemInfoRes,
    JsonRpcError,
>)
    ensures
        mode@ == "stats"@ ==> (r matches Ok(GetMemInfoRes::Stats(s)) && s.locked
            == locked_stats(*stats)),
        mode@ == "mallocinfo"@ ==> (r matches Ok(GetMemInfoRes::MallocInfo(x)) && x@
            == malloc_xml(*stats)),
        mode@ != "stats"@ && mode@ != "mallocinfo"@ ==> r matches Err(
            JsonRpcError::InvalidMemInfoMode,
        ),
{
    match mem_info_mode(mode) {
        Ok(m) => Ok(memory_info(m, stats)),
        Err(e) => Err(JsonRpcError::from(e)),
    }
}

/// A request that the server is still answering.
#[derive(Debug)]
pub struct ActiveCommand {
    pub method: String,
    /// How long it has been running, in microseconds.
    pub duration: u64,
}

impl ActiveCommand {
    /// An in-flight command of `method` that has run for `elapsed_micros`
    /// microseconds; the duration keeps the low 64 bits, as `as u64` does.
    pub fn new(method: String, elapsed_micros: u128) -> (r: ActiveCommand)
        ensures
            r.method == method,
            r.duration == elapsed_micros % 0x1_0000_0000_0000_0000,
    {
        let duration = elapsed_micros as u64;
        assert(duration == elapsed_micros % 0x1_0000_0000_0000_0000) by (bit_vector)
            requires
                duration == elapsed_micros as u64,
        ;
        ActiveCommand { method, duration }
    }
}

/// The result of `getrpcinfo`.
#[derive(Debug)]
pub struct GetRpcInfoRes {
    pub active_commands: Vec<ActiveCommand>,
    pub logpath: String,
}


/// For malloc-zone statistics, the stats report gives the zone's
/// allocated size both as the total and as the locked amount, its size in
/// use as used memory, what is allocated but not in use as free memory (so
/// that used and free add up to the total whenever the zone uses no more
/// than it has allocated), its blocks in use as used chunks and no free
/// chunks.
pub proof fn lemma_zone_stats_report(z: ZoneStatistics)
    ensures
        locked_stats(AllocatorStats::MallocZone(z)).locked == z.size_allocated,
        locked_stats(AllocatorStats::MallocZone(z)).total == z.size_allocated,
        locked_stats(AllocatorStats::MallocZone(z)).locked == locked_stats(
            AllocatorStats::MallocZone(z),
        ).total,
        locked_stats(AllocatorStats::MallocZone(z)).used == z.size_in_use,
        z.size_in_use <= z.size_allocated ==> locked_stats(AllocatorStats::MallocZone(z)).used
            + locked_stats(AllocatorStats::MallocZone(z)).free == locked_stats(
            AllocatorStats::MallocZone(z),
        ).total,
        z.size_in_use > z.size_allocated ==> locked_stats(AllocatorStats::MallocZone(z)).free
            == 0,
        locked_stats(AllocatorStats::MallocZone(z)).chunks_used == z.blocks_in_use,
        locked_stats(AllocatorStats::MallocZone(z)).chunks_free == 0,
{
}

} // verus!
