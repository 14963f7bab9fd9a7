//! The decisions of the kernel services offered to the uACPI interpreter: checked arithmetic on
//! mapping requests, port and configuration space access windows, allocation sizes, clocks,
//! timeouts, and the queue of deferred work.
use vstd::prelude::*;

use crate::acpi::mcfg::{configuration_address, first_region_index, McfgEntry};

verus! {

/// The status codes returned to the interpreter.
#[derive(Debug, Clone, Copy, PartialEq, Eq, Structural)]
pub enum UacpiStatus {
    Success,
    OutOfMemory,
    NotFound,
    InvalidArgument,
    Unimplemented,
    AlreadyExists,
    InternalError,
    InitLevelMismatch,
    Timeout,
}

/// The size of a standard page.
pub const PAGE_SIZE: usize = 4096;

/// The page-aligned span of the request `(addr, len)`: its first page, the offset of `addr` in
/// that page and its number of pages; `None` for an empty request or where the span does not fit
/// in the address space.
pub open spec fn page_span_spec(addr: int, len: int) -> Option<(usize, usize, usize)> {
    let offset = addr % 4096;
    let rounded = len + offset + 4095;
    let span = (rounded / 4096) * 4096;
    let base = addr - offset;
    if len == 0 || rounded > usize::MAX || base + span - 1 > usize::MAX {
        None
    } else {
        Some((base as usize, offset as usize, (span / 4096) as usize))
    }
}

/// The span of a request covers it exactly to page granularity: it starts at the page of the first
/// byte, ends on a page boundary after the last byte, and holds no page beyond.
pub proof fn lemma_page_span_covers(addr: int, len: int)
    requires
        0 <= addr,
        0 < len,
    ensures
        page_span_spec(addr, len) matches Some((base, offset, pages)) ==> {
            &&& base % 4096 == 0
            &&& base + offset == addr
            &&& offset < 4096
            &&& addr + len <= base + pages * 4096
            &&& base + pages * 4096 < addr + len + 4096
        },
{
    let offset = addr % 4096;
    let rounded = len + offset + 4095;
    let q = rounded / 4096;
    assert(q * 4096 <= rounded < q * 4096 + 4096) by (nonlinear_arith)
        requires
            q == rounded / 4096,
            rounded >= 0,
    ;
    assert((q * 4096) / 4096 == q) by (nonlinear_arith);
    assert((addr - offset) % 4096 == 0) by (nonlinear_arith)
        requires
            offset == addr % 4096,
            addr >= 0,
    ;
}

/// Computes the page-aligned span of a physical mapping request.
pub fn page_span(addr: usize, len: usize) -> (r: Option<(usize, usize, usize)>)
    ensures
        r == page_span_spec(addr as int, len as int),
{
    if len == 0 {
        return None;
    }
    let offset = addr % PAGE_SIZE;
    let with_offset = match len.checked_add(offset) {
        Some(v) => v,
        None => return None,
    };
    let rounded = match with_offset.checked_add(PAGE_SIZE - 1) {
        Some(v) => v,
        None => return None,
    };
    let mask: usize = !(PAGE_SIZE - 1);
    let span = rounded & mask;
    assert(span == (rounded / 4096) * 4096) by (bit_vector)
        requires
            mask == !4095usize,
            span == rounded & mask,
    ;
    let base = addr - offset;
    if base > usize::MAX - (span - 1) {
        return None;
    }
    Some((base, offset, span / PAGE_SIZE))
}

/// The address returned when a physical mapping cannot be made.
pub const MAP_FAILED: usize = usize::MAX;

/// Where a physical mapping request is placed: the page-aligned span of the request and the offset
/// in the mapping aperture reserved for it.
#[derive(Debug, Clone, Copy, PartialEq, Eq)]
pub struct MapPlan {
    pub base: usize,
    pub offset: usize,
    pub pages: usize,
    pub region_offset: usize,
    pub next_region_offset: usize,
}

/// Where a mapping request is placed, as `plan_physical_mapping` decides it.
pub open spec fn mapping_plan(addr: u64, len: usize, max_phys_addr: u64, next_region_offset: usize, region_length: usize) -> Option<MapPlan> {
    if addr > usize::MAX {
        None
    } else {
        match page_span_spec(addr as int, len as int) {
            None => None,
            Some((base, offset, pages)) => {
                let bytes = pages * PAGE_SIZE;
                if base > max_phys_addr || base + bytes - 1 > max_phys_addr
                    || next_region_offset + bytes > region_length {
                    None
                } else {
                    Some(MapPlan {
                        base,
                        offset,
                        pages,
                        region_offset: next_region_offset,
                        next_region_offset: (next_region_offset + bytes) as usize,
                    })
                }
            },
        }
    }
}

/// Windows of the mapping aperture are never reused: a plan made from the offset the previous one
/// left takes a window after it, and each window lies within the aperture.
pub proof fn lemma_mapping_windows_disjoint(
    a1: u64, l1: usize, a2: u64, l2: usize, max_phys_addr: u64, next: usize, region_length: usize,
)
    requires
        mapping_plan(a1, l1, max_phys_addr, next, region_length) is Some,
        mapping_plan(a2, l2, max_phys_addr,
            mapping_plan(a1, l1, max_phys_addr, next, region_length)->0.next_region_offset, region_length) is Some,
    ensures
        ({
            let p1 = mapping_plan(a1, l1, max_phys_addr, next, region_length)->0;
            let p2 = mapping_plan(a2, l2, max_phys_addr, p1.next_region_offset, region_length)->0;
            &&& p1.region_offset < p1.next_region_offset
            &&& p1.next_region_offset <= p2.region_offset
            &&& p2.region_offset < p2.next_region_offset
            &&& p2.next_region_offset <= region_length
        }),
{
    let p1 = mapping_plan(a1, l1, max_phys_addr, next, region_length)->0;
    lemma_page_span_covers(a1 as int, l1 as int);
    lemma_page_span_covers(a2 as int, l2 as int);
    assert(p1.pages > 0);
}

/// Plans the mapping of `len` bytes of physical memory at `addr`. Mappings are never reused, so
/// each takes the next free window of the aperture of `region_length` bytes after
/// `next_region_offset`. `None` where the request is empty, overflows, reaches past
/// `max_phys_addr`, or does not fit in what is left of the aperture.
pub fn plan_physical_mapping(addr: u64, len: usize, max_phys_addr: u64, next_region_offset: usize, region_length: usize) -> (r: Option<MapPlan>)
    ensures
        r == mapping_plan(addr, len, max_phys_addr, next_region_offset, region_length),
        addr > usize::MAX ==> r is None,
        addr <= usize::MAX ==> match page_span_spec(addr as int, len as int) {
            None => r is None,
            Some((base, offset, pages)) => {
                let bytes = pages * PAGE_SIZE;
                if base > max_phys_addr || base + bytes - 1 > max_phys_addr
                    || next_region_offset + bytes > region_length {
                    r is None
                } else {
                    r == Some(MapPlan {
                        base,
                        offset,
                        pages,
                        region_offset: next_region_offset,
                        next_region_offset: (next_region_offset + bytes) as usize,
                    })
                }
            },
        },
{
    if addr > usize::MAX as u64 {
        return None;
    }
    let (base, offset, pages) = match page_span(addr as usize, len) {
        Some(span) => span,
        None => return None,
    };
    let bytes = pages * PAGE_SIZE;
    if base as u64 > max_phys_addr || (base + (bytes - 1)) as u64 > max_phys_addr {
        return None;
    }
    if next_region_offset > region_length || bytes > region_length - next_region_offset {
        return None;
    }
    Some(MapPlan { base, offset, pages, region_offset: next_region_offset, next_region_offset: next_region_offset + bytes })
}

/// The pages to release for an unmapping request: none for a null or failed mapping, else the
/// first page and number of pages of its span.
pub fn plan_physical_unmapping(addr: usize, len: usize) -> (r: Option<(usize, usize)>)
    ensures
        addr == 0 || addr == MAP_FAILED ==> r is None,
        addr != 0 && addr != MAP_FAILED ==> match page_span_spec(addr as int, len as int) {
            None => r is None,
            Some((base, _offset, pages)) => r == Some((base, pages)),
        },
{
    if addr == 0 || addr == MAP_FAILED {
        return None;
    }
    match page_span(addr, len) {
        Some((base, _offset, pages)) => Some((base, pages)),
        None => None,
    }
}

/// The highest I/O port plus one.
pub const IO_PORT_SPACE_SIZE: u64 = 0x1_0000;

/// A window of I/O ports. Mappings are views, not exclusive reservations: firmware maps the same
/// registers through both fixed hardware and operation regions.
#[derive(Debug, Clone, Copy, PartialEq, Eq)]
pub struct IoRegion {
    pub base: u16,
    /// usize permits the entire 65536-port address space, including port 0xffff.
    pub len: usize,
}

impl IoRegion {
    /// The region of `len` ports from `base`, where it is not empty and lies within the port space.
    pub fn new(base: u64, len: usize) -> (r: Option<Self>)
        ensures
            len == 0 || base + len > IO_PORT_SPACE_SIZE ==> r is None,
            len != 0 && base + len <= IO_PORT_SPACE_SIZE ==> r == Some(IoRegion { base: base as u16, len }),
    {
        let len64 = len as u64;
        if base > u64::MAX - len64 {
            return None;
        }
        let end = base + len64;
        if len == 0 || end > IO_PORT_SPACE_SIZE {
            return None;
        }
        Some(IoRegion { base: base as u16, len })
    }

    /// The port for an access of `width` ports at `offset` in the region, where it lies within.
    pub fn port(&self, offset: usize, width: usize) -> (r: Option<u16>)
        requires
            width > 0,
            self.base + self.len <= IO_PORT_SPACE_SIZE,
        ensures
            offset + width > self.len ==> r is None,
            offset + width <= self.len ==> r == Some((self.base + offset) as u16),
    {
        if offset > usize::MAX - width || offset + width > self.len {
            return None;
        }
        Some(self.base + offset as u16)
    }
}

/// The size of the configuration space of one PCI function in the ECAM.
pub const ECAM_FUNCTION_SIZE: usize = 4096;

/// Whether an access of `width` bytes at `offset` of a function's configuration space is aligned
/// to its width and lies within the configuration space.
pub fn pci_valid_access(offset: usize, width: usize) -> (r: bool)
    requires
        width > 0,
    ensures
        r == (offset % width == 0 && offset + width <= ECAM_FUNCTION_SIZE),
{
    offset % width == 0 && offset <= usize::MAX - width && offset + width <= ECAM_FUNCTION_SIZE
}

/// A PCI address as the interpreter gives it.
#[derive(Debug, Clone, Copy, PartialEq, Eq)]
pub struct UacpiPciAddress {
    pub segment: u16,
    pub bus: u8,
    pub device: u8,
    pub function: u8,
}

/// The physical ECAM address to map when opening a PCI function, or the status to return:
/// invalid device and function numbers are refused, and functions outside every ECAM allocation
/// are not found rather than reached through legacy configuration ports.
pub fn pci_device_open_target(regions: &Vec<McfgEntry>, max_phys_addr: u64, address: UacpiPciAddress) -> (r: Result<u64, UacpiStatus>)
    requires
        forall|i: int| 0 <= i < regions@.len() ==> (#[trigger] regions@[i]).valid(max_phys_addr),
    ensures
        address.device >= 32 || address.function >= 8 ==> r == Err::<u64, UacpiStatus>(UacpiStatus::InvalidArgument),
        address.device < 32 && address.function < 8 ==> match first_region_index(regions@, address.segment, address.bus) {
            None => r == Err::<u64, UacpiStatus>(UacpiStatus::NotFound),
            Some(i) => r == Ok::<u64, UacpiStatus>(
                (regions@[i].ecam_base + address.bus * 0x10_0000 + address.device * 0x8000 + address.function * 0x1000) as u64,
            ),
        },
{
    if address.device >= 32 || address.function >= 8 {
        return Err(UacpiStatus::InvalidArgument);
    }
    match configuration_address(regions, max_phys_addr, address.segment, address.bus, address.device, address.function) {
        Some(physical) => Ok(physical),
        None => Err(UacpiStatus::NotFound),
    }
}

/// The alignment of every allocation handed to the interpreter.
pub const MALLOC_ALIGN: usize = 16;

/// The size of the header that records an allocation's size in front of it.
pub const MALLOC_HEADER_SIZE: usize = 16;

/// The total size of the allocation that holds `size` bytes and its header: `None` where it
/// overflows or where, rounded up to the alignment, it exceeds `isize::MAX`.
pub fn malloc_total_size(size: usize) -> (r: Option<usize>)
    ensures
        ({
            let total = (if size == 0 { 1 } else { size as int }) + MALLOC_HEADER_SIZE;
            if total > usize::MAX || ((total + 15) / 16) * 16 > isize::MAX {
                r is None
            } else {
                r == Some(total as usize)
            }
        }),
{
    let requested = if size == 0 { 1 } else { size };
    if requested > usize::MAX - MALLOC_HEADER_SIZE {
        return None;
    }
    let total = requested + MALLOC_HEADER_SIZE;
    if total > isize::MAX as usize - (MALLOC_ALIGN - 1) {
        return None;
    }
    let rounded = (total + (MALLOC_ALIGN - 1)) / MALLOC_ALIGN * MALLOC_ALIGN;
    if rounded > isize::MAX as usize {
        return None;
    }
    Some(total)
}

/// The next reading of the boot clock handed out: the current time, clamped to be strictly after
/// the previous reading to hide clock skew between processors and repeated reads.
pub fn next_nanoseconds(now: u64, previous: u64) -> (r: u64)
    ensures
        r == (if previous == u64::MAX {
            if now > previous { now } else { u64::MAX }
        } else if now > previous + 1 {
            now
        } else {
            (previous + 1) as u64
        }),
        r >= now,
        previous < u64::MAX ==> r > previous,
{
    let floor = previous.saturating_add(1);
    if now > floor {
        now
    } else {
        floor
    }
}

/// Two readings handed out one after the other always increase, until the clock saturates.
pub proof fn lemma_clock_strictly_increasing(now1: u64, now2: u64, previous: u64)
    requires
        previous < u64::MAX,
        ({
            let first = if now1 > previous + 1 { now1 as int } else { previous + 1 };
            first < u64::MAX
        }),
    ensures
        ({
            let first = if now1 > previous + 1 { now1 as int } else { previous + 1 };
            let second = if now2 > first + 1 { now2 as int } else { first + 1 };
            previous < first < second
        }),
{
}

/// The number of timestamp counter ticks to spin for a stall of `usec` microseconds, with one
/// tick lasting `period_picos` picoseconds, rounded up.
pub fn stall_ticks(usec: u8, period_picos: u128) -> (r: u64)
    requires
        period_picos > 0,
    ensures
        r * period_picos >= usec * 1_000_000,
        (r - 1) * period_picos < usec * 1_000_000 || r == 0,
        r == (usec * 1_000_000 + period_picos - 1) / (period_picos as int),
{
    let picos: u128 = usec as u128 * 1_000_000;
    let q = picos / period_picos;
    let r = if picos % period_picos != 0 { q + 1 } else { q };
    assert(q * period_picos + picos % period_picos == picos) by (nonlinear_arith)
        requires
            q == picos / period_picos,
            period_picos > 0,
    ;
    assert(r == (picos + period_picos - 1) / (period_picos as int)) by (nonlinear_arith)
        requires
            q == picos / period_picos,
            period_picos > 0,
            r == (if picos % period_picos != 0 { q + 1 } else { q as int }),
            q * period_picos + picos % period_picos == picos,
    ;
    assert(r <= picos) by (nonlinear_arith)
        requires
            q == picos / period_picos,
            period_picos > 0,
            picos <= 255 * 1_000_000,
            r == (if picos % period_picos != 0 { q + 1 } else { q as int }),
            q * period_picos + picos % period_picos == picos,
    ;
    assert(r * period_picos >= picos) by (nonlinear_arith)
        requires
            period_picos > 0,
            r == (if picos % period_picos != 0 { q + 1 } else { q as int }),
            q * period_picos + picos % period_picos == picos,
            0 <= picos % period_picos < period_picos,
    ;
    assert((r - 1) * period_picos < picos || r == 0) by (nonlinear_arith)
        requires
            period_picos > 0,
            r == (if picos % period_picos != 0 { q + 1 } else { q as int }),
            q * period_picos + picos % period_picos == picos,
            0 <= picos % period_picos < period_picos,
    ;
    r as u64
}

/// The thread identity reported to the interpreter: the scheduler's thread ID, else, for boot and
/// idle contexts, the high bit set with the logical processor number. Neither range holds the
/// interpreter's all-ones "no thread" value.
pub fn host_thread_id(thread: Option<u64>, lp_id: u32) -> (r: u64)
    ensures
        thread is Some ==> r == thread->0,
        thread is None ==> r == 0x8000_0000_0000_0000u64 + lp_id,
        thread is None ==> r != u64::MAX,
{
    match thread {
        Some(tid) => tid,
        None => {
            let high: u64 = 1u64 << 63u64;
            let lp = lp_id as u64;
            let r = high | lp;
            assert(r == 0x8000_0000_0000_0000u64 + lp && r != 0xffff_ffff_ffff_ffffu64) by (bit_vector)
                requires
                    high == 1u64 << 63u64,
                    r == high | lp,
                    lp < 0x1_0000_0000u64,
            ;
            r
        },
    }
}

/// How long a wait for an event or a mutex may block.
#[derive(Debug, Clone, Copy, PartialEq, Eq)]
pub enum WaitPolicy {
    /// Do not block: take what is available now.
    Poll,
    /// Block until the wait succeeds.
    Forever,
    /// Block for at most this many milliseconds.
    Millis(u16),
}

/// The wait an interpreter timeout asks for: 0 polls, 0xffff waits forever, anything else waits
/// that many milliseconds.
pub fn wait_policy(timeout: u16) -> (r: WaitPolicy)
    ensures
        timeout == 0 ==> r == WaitPolicy::Poll,
        timeout == u16::MAX ==> r == WaitPolicy::Forever,
        timeout != 0 && timeout != u16::MAX ==> r == WaitPolicy::Millis(timeout),
{
    if timeout == 0 {
        WaitPolicy::Poll
    } else if timeout == u16::MAX {
        WaitPolicy::Forever
    } else {
        WaitPolicy::Millis(timeout)
    }
}

/// The status of an attempt to acquire a mutex.
pub fn acquire_status(acquired: bool) -> (r: UacpiStatus)
    ensures
        r == (if acquired { UacpiStatus::Success } else { UacpiStatus::Timeout }),
{
    if acquired {
        UacpiStatus::Success
    } else {
        UacpiStatus::Timeout
    }
}

/// The kinds of firmware requests AML can raise.
#[derive(Debug, Clone, Copy, PartialEq, Eq)]
pub enum FirmwareRequest {
    Breakpoint,
    Fatal,
    Other,
}

/// The status returned for a firmware request: a breakpoint is acknowledged, a fatal error
/// reported as an internal error, and anything else refused.
pub fn firmware_request_status(request: FirmwareRequest) -> (r: UacpiStatus)
    ensures
        request == FirmwareRequest::Breakpoint ==> r == UacpiStatus::Success,
        request == FirmwareRequest::Fatal ==> r == UacpiStatus::InternalError,
        request == FirmwareRequest::Other ==> r == UacpiStatus::InvalidArgument,
{
    match request {
        FirmwareRequest::Breakpoint => UacpiStatus::Success,
        FirmwareRequest::Fatal => UacpiStatus::InternalError,
        FirmwareRequest::Other => UacpiStatus::InvalidArgument,
    }
}

/// The severity of a message of the interpreter.
#[derive(Debug, Clone, Copy, PartialEq, Eq, Structural)]
pub enum LogLevel {
    Debug,
    Info,
    Warn,
    Error,
    Other,
}

/// The name a log line shows for a severity.
pub fn log_level_name(level: LogLevel) -> (r: &'static str)
    ensures
        r@ == match level {
            LogLevel::Debug => "DEBUG"@,
            LogLevel::Info => "INFO"@,
            LogLevel::Warn => "WARN"@,
            LogLevel::Error => "ERROR"@,
            LogLevel::Other => "UNKNOWN"@,
        },
{
    match level {
        LogLevel::Debug => "DEBUG",
        LogLevel::Info => "INFO",
        LogLevel::Warn => "WARN",
        LogLevel::Error => "ERROR",
        LogLevel::Other => "UNKNOWN",
    }
}

pub const CR: u8 = 0x0d;
pub const LF: u8 = 0x0a;

/// `s` without its trailing carriage returns and line feeds.
pub open spec fn trim_end_crlf(s: Seq<u8>) -> Seq<u8>
    decreases s.len(),
{
    if s.len() > 0 && (s.last() == CR || s.last() == LF) {
        trim_end_crlf(s.drop_last())
    } else {
        s
    }
}

/// `s` without its trailing carriage returns.
pub open spec fn trim_end_cr(s: Seq<u8>) -> Seq<u8>
    decreases s.len(),
{
    if s.len() > 0 && s.last() == CR {
        trim_end_cr(s.drop_last())
    } else {
        s
    }
}

/// The pieces of `s` between line feeds; one piece more than there are line feeds.
pub open spec fn split_lf(s: Seq<u8>) -> Seq<Seq<u8>>
    decreases s.len(),
{
    if s.len() == 0 {
        seq![Seq::<u8>::empty()]
    } else {
        let rest = split_lf(s.drop_last());
        if s.last() == LF {
            rest.push(Seq::<u8>::empty())
        } else {
            rest.update(rest.len() - 1, rest.last().push(s.last()))
        }
    }
}

proof fn lemma_split_lf_nonempty(s: Seq<u8>)
    ensures
        split_lf(s).len() >= 1,
    decreases s.len(),
{
    if s.len() > 0 {
        lemma_split_lf_nonempty(s.drop_last());
    }
}

/// The lines a message of the interpreter is logged as: the trailing line breaks dropped, the
/// rest split at line feeds, and each line without its trailing carriage returns, since the
/// consoles end every line with CR LF themselves.
pub open spec fn log_lines_spec(message: Seq<u8>) -> Seq<Seq<u8>> {
    split_lf(trim_end_crlf(message)).map_values(|line: Seq<u8>| trim_end_cr(line))
}

/// The length of `s` without its trailing carriage returns, and its trailing line feeds too unless
/// `cr_only`.
fn trimmed_len(s: &[u8], cr_only: bool) -> (n: usize)
    ensures
        cr_only ==> s@.take(n as int) == trim_end_cr(s@),
        !cr_only ==> s@.take(n as int) == trim_end_crlf(s@),
        n <= s@.len(),
{
    let mut n = s.len();
    assert(s@.take(n as int) =~= s@);
    while n > 0 && (s[n - 1] == CR || (!cr_only && s[n - 1] == LF))
        invariant
            n <= s@.len(),
            cr_only ==> trim_end_cr(s@.take(n as int)) == trim_end_cr(s@),
            !cr_only ==> trim_end_crlf(s@.take(n as int)) == trim_end_crlf(s@),
        decreases n,
    {
        assert(s@.take(n as int).drop_last() =~= s@.take(n - 1));
        n = n - 1;
    }
    n
}

proof fn lemma_split_lf_no_lf(s: Seq<u8>)
    ensures
        forall|i: int| 0 <= i < split_lf(s).len() ==> !(#[trigger] split_lf(s)[i]).contains(LF),
    decreases s.len(),
{
    lemma_split_lf_nonempty(s);
    if s.len() > 0 {
        let rest = split_lf(s.drop_last());
        lemma_split_lf_no_lf(s.drop_last());
        lemma_split_lf_nonempty(s.drop_last());
        if s.last() != LF {
            let last = rest.last().push(s.last());
            assert(!last.contains(LF)) by {
                if last.contains(LF) {
                    let k = choose|k: int| 0 <= k < last.len() && last[k] == LF;
                    assert(rest.last()[k] == LF);
                }
            }
        }
    }
}

proof fn lemma_trim_end_cr(s: Seq<u8>)
    ensures
        trim_end_cr(s).len() > 0 ==> trim_end_cr(s).last() != CR,
        trim_end_cr(s) == s.take(trim_end_cr(s).len() as int),
        trim_end_cr(s).len() <= s.len(),
    decreases s.len(),
{
    if s.len() > 0 && s.last() == CR {
        lemma_trim_end_cr(s.drop_last());
        assert(s.drop_last().take(trim_end_cr(s).len() as int) =~= s.take(trim_end_cr(s).len() as int));
    } else {
        assert(s.take(s.len() as int) =~= s);
    }
}

/// No logged line holds a line feed or ends with a carriage return: the console's own CR LF is the
/// only line break each line gets.
pub proof fn lemma_log_lines_clean(message: Seq<u8>)
    ensures
        forall|i: int| 0 <= i < log_lines_spec(message).len() ==> {
            let line = #[trigger] log_lines_spec(message)[i];
            &&& !line.contains(LF)
            &&& (line.len() > 0 ==> line.last() != CR)
        },
{
    let pieces = split_lf(trim_end_crlf(message));
    lemma_split_lf_no_lf(trim_end_crlf(message));
    assert forall|i: int| 0 <= i < log_lines_spec(message).len() implies {
        let line = #[trigger] log_lines_spec(message)[i];
        &&& !line.contains(LF)
        &&& (line.len() > 0 ==> line.last() != CR)
    } by {
        let piece = pieces[i];
        lemma_trim_end_cr(piece);
        let line = trim_end_cr(piece);
        assert(log_lines_spec(message)[i] == line);
        assert(!piece.contains(LF));
        if line.contains(LF) {
            let k = choose|k: int| 0 <= k < line.len() && line[k] == LF;
            assert(piece[k] == LF);
        }
    }
}

/// Splits a message of the interpreter into the lines it is logged as.
pub fn log_lines(message: &[u8]) -> (r: Vec<Vec<u8>>)
    ensures
        r@.len() == log_lines_spec(message@).len(),
        forall|i: int| 0 <= i < r@.len() ==> (#[trigger] r@[i])@ == log_lines_spec(message@)[i],
{
    let end = trimmed_len(message, false);
    let ghost body = message@.take(end as int);
    let mut pieces: Vec<Vec<u8>> = Vec::new();
    let mut current: Vec<u8> = Vec::new();
    let mut i: usize = 0;
    while i < end
        invariant
            end <= message@.len(),
            body == message@.take(end as int),
            i <= end,
            pieces@.len() + 1 == split_lf(body.take(i as int)).len(),
            forall|k: int| 0 <= k < pieces@.len() ==> (#[trigger] pieces@[k])@ == split_lf(body.take(i as int))[k],
            current@ == split_lf(body.take(i as int)).last(),
        decreases end - i,
    {
        proof {
            lemma_split_lf_nonempty(body.take(i as int));
        }
        assert(body.take(i + 1).drop_last() =~= body.take(i as int));
        assert(body.take(i + 1).last() == message@[i as int]);
        if message[i] == LF {
            pieces.push(current);
            current = Vec::new();
        } else {
            current.push(message[i]);
        }
        i = i + 1;
    }
    assert(body.take(end as int) =~= body);
    pieces.push(current);
    let mut lines: Vec<Vec<u8>> = Vec::new();
    let mut j: usize = 0;
    while j < pieces.len()
        invariant
            j <= pieces@.len(),
            pieces@.len() == split_lf(body).len(),
            forall|k: int| 0 <= k < pieces@.len() ==> (#[trigger] pieces@[k])@ == split_lf(body)[k],
            body == trim_end_crlf(message@),
            lines@.len() == j,
            forall|k: int| 0 <= k < j ==> (#[trigger] lines@[k])@ == trim_end_cr(split_lf(body)[k]),
        decreases pieces@.len() - j,
    {
        let piece = pieces[j].as_slice();
        let n = trimmed_len(piece, true);
        let mut line: Vec<u8> = Vec::new();
        let mut k: usize = 0;
        while k < n
            invariant
                n <= piece@.len(),
                k <= n,
                line@ == piece@.take(k as int),
            decreases n - k,
        {
            line.push(piece[k]);
            k = k + 1;
            assert(line@ =~= piece@.take(k as int));
        }
        lines.push(line);
        j = j + 1;
    }
    lines
}

} // verus!
