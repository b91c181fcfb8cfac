//! Boot-parameter and command-line preparation.
//!
//! The boot orchestrator resolves the fixed guest physical addresses of the
//! boot protocol, describes the usable RAM regions and the MMIO gap
//! boundaries to the guest, and validates and encodes the kernel command
//! line. Writing the results into guest memory, like loading the kernel
//! image, is I/O performed by the unverified front end.

use vstd::prelude::*;
use crate::memory::{MemRegion, FIRST_ADDR_PAST_32BITS, MMIO_MEM_START};

verus! {

/// Start of the extended BIOS data area: conventional RAM below it is
/// described to the guest as usable.
pub const EBDA_START: u64 = 0x0009_FC00;
/// E820 entry type for usable RAM.
pub const E820_RAM: u32 = 1;
/// Boot-sector magic expected by the Linux boot protocol.
pub const KERNEL_BOOT_FLAG_MAGIC: u16 = 0xAA55;
/// "HdrS" header magic of the Linux boot protocol.
pub const KERNEL_HDR_MAGIC: u32 = 0x5372_6448;
/// Loader identifier for an otherwise unregistered loader.
pub const KERNEL_LOADER_OTHER: u8 = 0xFF;
/// Kernel alignment advertised to the guest (16 MiB).
pub const KERNEL_MIN_ALIGNMENT_BYTES: u32 = 0x0100_0000;

/// Errors of kernel command-line encoding.
#[derive(Clone, Copy, Debug, PartialEq, Eq, Structural)]
pub enum CmdlineError {
    /// The command line holds a character outside printable ASCII.
    InvalidAscii,
}

/// Errors of boot-parameter construction.
#[derive(Clone, Copy, Debug, PartialEq, Eq, Structural)]
pub enum BootParamError {
    /// The kernel load address lies past the end of guest memory.
    HimemStartPastMemEnd,
    /// The kernel load address lies past the start of the MMIO gap.
    HimemStartPastMmioGapStart,
}

/// One entry of the e820 memory map handed to the guest.
#[derive(Clone, Copy, Debug, PartialEq, Eq, Structural)]
pub struct E820Entry {
    /// First guest physical address of the described range.
    pub addr: u64,
    /// Length of the described range in bytes.
    pub size: u64,
    /// Entry type (usable RAM is [`E820_RAM`]).
    pub entry_type: u32,
}

/// The architecture boot parameters this VMM fills in, as plain values.
/// The front end copies them into the Linux `boot_params` structure it
/// writes at the zero page.
#[derive(Clone, Debug)]
pub struct BootParams {
    /// Loader identifier.
    pub type_of_loader: u8,
    /// Boot-sector magic.
    pub boot_flag: u16,
    /// Header magic.
    pub header: u32,
    /// Kernel alignment in bytes.
    pub kernel_alignment: u32,
    /// Guest physical address of the command line.
    pub cmdline_ptr: u32,
    /// Length of the command line, terminator included.
    pub cmdline_size: u32,
    /// The e820 memory map.
    pub e820: Vec<E820Entry>,
}

/// Whether the character has the Unicode `White_Space` property, the notion
/// `str::trim` removes at either end.
pub open spec fn is_unicode_ws(c: char) -> bool {
    ||| (0x09 <= c as u32 && c as u32 <= 0x0D)
    ||| c as u32 == 0x20
    ||| c as u32 == 0x85
    ||| c as u32 == 0xA0
    ||| c as u32 == 0x1680
    ||| (0x2000 <= c as u32 && c as u32 <= 0x200A)
    ||| c as u32 == 0x2028
    ||| c as u32 == 0x2029
    ||| c as u32 == 0x202F
    ||| c as u32 == 0x205F
    ||| c as u32 == 0x3000
}

/// Whether the character is printable ASCII (`' '..='~'`), the set the
/// command-line builder accepts.
pub open spec fn is_printable_ascii(c: char) -> bool {
    0x20 <= c as u32 && c as u32 <= 0x7E
}

/// Length of the whitespace prefix of `s`.
pub open spec fn ws_prefix_len(s: Seq<char>) -> nat
    decreases s.len(),
{
    if s.len() == 0 {
        0
    } else if !is_unicode_ws(s[0]) {
        0
    } else {
        (1 + ws_prefix_len(s.drop_first())) as nat
    }
}

/// Length of the whitespace suffix of `s`.
pub open spec fn ws_suffix_len(s: Seq<char>) -> nat
    decreases s.len(),
{
    if s.len() == 0 {
        0
    } else if !is_unicode_ws(s[s.len() - 1]) {
        0
    } else {
        (1 + ws_suffix_len(s.drop_last())) as nat
    }
}

/// `s` with leading and trailing whitespace removed, as `str::trim` does.
pub open spec fn trim_spec(s: Seq<char>) -> Seq<char> {
    if ws_prefix_len(s) == s.len() {
        Seq::<char>::empty()
    } else {
        s.subrange(ws_prefix_len(s) as int, s.len() - ws_suffix_len(s))
    }
}

/// Whether the command-line builder accepts `s`: after trimming, every
/// character is printable ASCII.
pub open spec fn cmdline_accepted(s: Seq<char>) -> bool {
    forall|i: int|
        0 <= i < trim_spec(s).len() ==> is_printable_ascii(#[trigger] trim_spec(s)[i])
}

/// The encoded command line: the trimmed text with a nul terminator.
pub open spec fn spec_cmdline_bytes(s: Seq<char>) -> Seq<u8> {
    Seq::new(trim_spec(s).len(), |i: int| trim_spec(s)[i] as u8).push(0u8)
}

/// Relies on `linux_loader::cmdline::Cmdline`: `new` (capacity one past the
/// input's byte length, so it never fails and the later size check never
/// trips), `insert_str` (trims the input and accepts exactly the strings
/// whose every remaining character is printable ASCII, failing otherwise
/// with `InvalidAscii`), and `as_cstring` (the accepted text, which holds no
/// nul, with a nul terminator appended).
#[verifier::external_body]
pub(crate) fn encode_cmdline(s: &str) -> (r: Result<Vec<u8>, CmdlineError>)
    ensures
        r is Ok <==> cmdline_accepted(s@),
        r matches Ok(b) ==> b@ == spec_cmdline_bytes(s@) && b@.len() <= s@.len() + 1,
        r matches Err(e) ==> e == CmdlineError::InvalidAscii,
{
    let mut cmdline = match linux_loader::cmdline::Cmdline::new(s.len() + 1) {
        Ok(c) => c,
        Err(_) => return Err(CmdlineError::InvalidAscii),
    };
    if cmdline.insert_str(s).is_err() {
        return Err(CmdlineError::InvalidAscii);
    }
    match cmdline.as_cstring() {
        Ok(c) => Ok(c.into_bytes_with_nul()),
        Err(_) => Err(CmdlineError::InvalidAscii),
    }
}

/// The last guest physical address covered by the regions.
pub open spec fn spec_last_addr(rs: Seq<MemRegion>) -> u64 {
    (rs.last().base + rs.last().size - 1) as u64
}

/// The e820 map for a guest whose RAM ends at `last_addr` and whose kernel
/// is loaded at `himem_start`: the conventional-RAM entry below the EBDA,
/// the RAM from `himem_start` up to the MMIO gap (or up to the end of
/// memory when it ends below the gap), and the RAM past the 4 GiB boundary
/// when there is any.
pub open spec fn spec_e820_entries(last_addr: u64, himem_start: u64) -> Result<
    Seq<E820Entry>,
    BootParamError,
> {
    let ebda = E820Entry { addr: 0, size: EBDA_START, entry_type: E820_RAM };
    if last_addr < MMIO_MEM_START {
        if himem_start > last_addr {
            Err(BootParamError::HimemStartPastMemEnd)
        } else {
            Ok(
                seq![
                    ebda,
                    E820Entry {
                        addr: himem_start,
                        size: (last_addr - himem_start + 1) as u64,
                        entry_type: E820_RAM,
                    },
                ],
            )
        }
    } else {
        if himem_start > MMIO_MEM_START {
            Err(BootParamError::HimemStartPastMmioGapStart)
        } else {
            let below = E820Entry {
                addr: himem_start,
                size: (MMIO_MEM_START - himem_start) as u64,
                entry_type: E820_RAM,
            };
            if last_addr >= FIRST_ADDR_PAST_32BITS {
                Ok(
                    seq![
                        ebda,
                        below,
                        E820Entry {
                            addr: FIRST_ADDR_PAST_32BITS,
                            size: (last_addr - FIRST_ADDR_PAST_32BITS + 1) as u64,
                            entry_type: E820_RAM,
                        },
                    ],
                )
            } else {
                Ok(seq![ebda, below])
            }
        }
    }
}

/// Build the architecture boot parameters for the given RAM regions and
/// kernel load address. The command-line fields are filled in later by the
/// kernel-configuration step.
pub fn build_bootparams(regions: &Vec<MemRegion>, himem_start: u64) -> (r: Result<
    BootParams,
    BootParamError,
>)
    requires
        regions@.len() >= 1,
        regions@.last().size >= 1,
        regions@.last().base + regions@.last().size - 1 <= u64::MAX,
    ensures
        ({
            let e = spec_e820_entries(spec_last_addr(regions@), himem_start);
            &&& e matches Ok(es) ==> (r matches Ok(bp) && {
                &&& bp.e820@ == es
                &&& bp.type_of_loader == KERNEL_LOADER_OTHER
                &&& bp.boot_flag == KERNEL_BOOT_FLAG_MAGIC
                &&& bp.header == KERNEL_HDR_MAGIC
                &&& bp.kernel_alignment == KERNEL_MIN_ALIGNMENT_BYTES
                &&& bp.cmdline_ptr == 0
                &&& bp.cmdline_size == 0
            })
            &&& e matches Err(err) ==> r == Err::<BootParams, BootParamError>(err)
        }),
{
    let last = regions[regions.len() - 1];
    let last_addr: u64 = last.base + (last.size - 1);
    let mut e820: Vec<E820Entry> = Vec::new();
    e820.push(E820Entry { addr: 0, size: EBDA_START, entry_type: E820_RAM });
    if last_addr < MMIO_MEM_START {
        if himem_start > last_addr {
            return Err(BootParamError::HimemStartPastMemEnd);
        }
        e820.push(
            E820Entry { addr: himem_start, size: last_addr - himem_start + 1, entry_type: E820_RAM },
        );
    } else {
        if himem_start > MMIO_MEM_START {
            return Err(BootParamError::HimemStartPastMmioGapStart);
        }
        e820.push(
            E820Entry {
                addr: himem_start,
                size: MMIO_MEM_START - himem_start,
                entry_type: E820_RAM,
            },
        );
        if last_addr >= FIRST_ADDR_PAST_32BITS {
            e820.push(
                E820Entry {
                    addr: FIRST_ADDR_PAST_32BITS,
                    size: last_addr - FIRST_ADDR_PAST_32BITS + 1,
                    entry_type: E820_RAM,
                },
            );
        }
    }
    proof {
        let e = spec_e820_entries(spec_last_addr(regions@), himem_start);
        assert(e820@ =~= e->Ok_0);
    }
    Ok(
        BootParams {
            type_of_loader: KERNEL_LOADER_OTHER,
            boot_flag: KERNEL_BOOT_FLAG_MAGIC,
            header: KERNEL_HDR_MAGIC,
            kernel_alignment: KERNEL_MIN_ALIGNMENT_BYTES,
            cmdline_ptr: 0,
            cmdline_size: 0,
            e820,
        },
    )
}

/// Everything the front end must write into guest memory to boot: the boot
/// parameters for the zero page, the encoded command line, and the fixed
/// guest physical addresses involved.
#[derive(Clone, Debug)]
pub struct BootPlan {
    /// Boot parameters to serialize at [`zero_page_addr`](Self::zero_page_addr).
    pub bootparams: BootParams,
    /// Encoded command line, nul terminator included.
    pub cmdline_bytes: Vec<u8>,
    /// Guest physical address of the command-line buffer.
    pub cmdline_addr: u64,
    /// Guest physical address of the zero page.
    pub zero_page_addr: u64,
    /// Guest physical address above which the kernel image is loaded.
    pub himem_start: u64,
}

} // verus!
