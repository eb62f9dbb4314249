//! The command line: its commands, and the text of a preview's hex dump.
use crate::application::test::index_range;
use crate::text::ascii_string;
use vstd::prelude::*;

verus! {

/// The parsed command line.
#[derive(Debug, Clone)]
pub struct Cli {
    pub command: Option<Commands>,
    /// Run as a background worker process.
    pub worker: bool,
}

/// The commands of the command line.
#[derive(Debug, Clone)]
pub enum Commands {
    Open { path: String, password: Option<String> },
    Extract { path: String, to: Option<String>, password: Option<String> },
    Test { path: String, password: Option<String> },
    Compress { files: Vec<String>, to: Option<String>, format: String, password: Option<String> },
    Preview { path: String, index: u32, password: Option<String>, max_bytes: usize },
    Add { path: String, files: Vec<String>, password: Option<String> },
    Delete { path: String, indices: Vec<u32>, password: Option<String> },
    Rename { path: String, index: u32, name: String, password: Option<String> },
    /// Register shell context menu entries.
    ShellInstall,
    /// Unregister shell context menu entries.
    ShellUninstall,
}

/// Every index of an archive with `count` items, in order.
pub fn extract_indices(count: u32) -> (r: Vec<u32>)
    ensures
        r@ == index_range(count as nat),
{
    let mut r: Vec<u32> = Vec::new();
    let mut i: u32 = 0;
    while i < count
        invariant
            i <= count,
            r@ == index_range(i as nat),
        decreases count - i,
    {
        r.push(i);
        i = i + 1;
        assert(r@ =~= index_range(i as nat));
    }
    r
}

/// The ASCII code of a lowercase hexadecimal digit.
pub open spec fn hex_code(d: nat) -> u8 {
    if d < 10 {
        (48 + d) as u8
    } else {
        (97 + d - 10) as u8
    }
}

/// Each byte in two lowercase hexadecimal digits followed by a space.
pub open spec fn hex_column(chunk: Seq<u8>) -> Seq<u8>
    decreases chunk.len(),
{
    if chunk.len() == 0 {
        Seq::empty()
    } else {
        hex_column(chunk.drop_last()) + seq![
            hex_code((chunk.last() / 16) as nat),
            hex_code((chunk.last() % 16) as nat),
            32u8,
        ]
    }
}

/// `s` padded with spaces on the right to `width` characters.
pub open spec fn pad_right(s: Seq<u8>, width: nat) -> Seq<u8> {
    if s.len() >= width {
        s
    } else {
        s + Seq::new((width - s.len()) as nat, |i: int| 32u8)
    }
}

/// How a byte shows in the text column: itself where it is printable ASCII
/// or a space, else '.'.
pub open spec fn shown_byte(b: u8) -> u8 {
    if (0x21 <= b && b <= 0x7e) || b == 0x20 {
        b
    } else {
        46u8
    }
}

/// The bytes of one line of a hex dump: an offset column of eight zeros, the
/// hexadecimal column padded to 48 characters, and the text column, each
/// separated by two spaces.
pub open spec fn dump_line(chunk: Seq<u8>) -> Seq<u8> {
    seq![48u8, 48, 48, 48, 48, 48, 48, 48, 32, 32] + pad_right(hex_column(chunk), 48) + seq![32u8, 32]
        + chunk.map_values(|b: u8| shown_byte(b))
}

proof fn lemma_hex_column(chunk: Seq<u8>)
    ensures
        hex_column(chunk).len() == 3 * chunk.len(),
        forall|i: int| 0 <= i < hex_column(chunk).len() ==> #[trigger] hex_column(chunk)[i] < 128,
    decreases chunk.len(),
{
    if chunk.len() > 0 {
        lemma_hex_column(chunk.drop_last());
    }
}

/// The ASCII code of the hexadecimal digit `d`.
fn hex_code_of(d: u8) -> (r: u8)
    requires
        d < 16,
    ensures
        r == hex_code(d as nat),
{
    if d < 10 {
        48 + d
    } else {
        97 + d - 10
    }
}

/// One line of the hex dump of a preview, for up to 16 bytes.
pub fn hex_dump_line(chunk: &[u8]) -> (r: String)
    requires
        chunk@.len() <= 16,
    ensures
        r@ == crate::text::ascii_chars(dump_line(chunk@)),
{
    let mut line: Vec<u8> = Vec::new();
    let mut z: usize = 0;
    while z < 8
        invariant
            z <= 8,
            line@ == Seq::new(z as nat, |i: int| 48u8),
        decreases 8 - z,
    {
        line.push(48u8);
        z = z + 1;
        assert(line@ =~= Seq::new(z as nat, |i: int| 48u8));
    }
    line.push(32u8);
    line.push(32u8);
    let ghost head = line@;
    let n = chunk.len();
    let mut i: usize = 0;
    while i < n
        invariant
            n == chunk@.len(),
            n <= 16,
            i <= n,
            line@ == head + hex_column(chunk@.take(i as int)),
        decreases n - i,
    {
        let b = chunk[i];
        line.push(hex_code_of(b / 16));
        line.push(hex_code_of(b % 16));
        line.push(32u8);
        proof {
            assert(chunk@.take(i + 1).drop_last() =~= chunk@.take(i as int));
            assert(line@ =~= head + hex_column(chunk@.take(i + 1)));
        }
        i = i + 1;
    }
    proof {
        assert(chunk@.take(n as int) =~= chunk@);
        lemma_hex_column(chunk@);
    }
    let ghost with_hex = line@;
    let mut pad: usize = 3 * n;
    while pad < 48
        invariant
            3 * n <= pad <= 48 || (3 * n >= 48 && pad == 3 * n),
            n <= 16,
            line@ == with_hex + Seq::new((pad - 3 * n) as nat, |k: int| 32u8),
        decreases 48 - pad,
    {
        line.push(32u8);
        pad = pad + 1;
        assert(line@ =~= with_hex + Seq::new((pad - 3 * n) as nat, |k: int| 32u8));
    }
    proof {
        assert(head =~= seq![48u8, 48, 48, 48, 48, 48, 48, 48, 32, 32]);
        if 3 * n < 48 {
            assert(line@ =~= head + pad_right(hex_column(chunk@), 48));
        } else {
            assert(line@ =~= head + pad_right(hex_column(chunk@), 48));
        }
    }
    line.push(32u8);
    line.push(32u8);
    let ghost before_text = line@;
    let mut j: usize = 0;
    while j < n
        invariant
            n == chunk@.len(),
            j <= n,
            line@ == before_text + chunk@.take(j as int).map_values(|b: u8| shown_byte(b)),
        decreases n - j,
    {
        let b = chunk[j];
        let shown = if (0x21u8 <= b && b <= 0x7eu8) || b == 0x20u8 {
            b
        } else {
            46u8
        };
        line.push(shown);
        proof {
            assert(chunk@.take(j + 1).map_values(|b: u8| shown_byte(b)) =~= chunk@.take(j as int).map_values(
                |b: u8| shown_byte(b),
            ).push(shown));
        }
        j = j + 1;
    }
    proof {
        assert(chunk@.take(n as int) =~= chunk@);
        assert(line@ =~= dump_line(chunk@));
        lemma_hex_column(chunk@);
        assert forall|k: int| 0 <= k < line@.len() implies line@[k] < 128 by {
            let d = dump_line(chunk@);
            if k >= 10 && k < 10 + pad_right(hex_column(chunk@), 48).len() {
                let p = k - 10;
                if p < hex_column(chunk@).len() {
                    assert(pad_right(hex_column(chunk@), 48)[p] == hex_column(chunk@)[p]);
                }
            }
        }
    }
    ascii_string(line)
}

/// The `i`-th block of 16 bytes (the last block may be shorter).
pub open spec fn dump_chunk(data: Seq<u8>, i: int) -> Seq<u8> {
    if 16 * i + 16 <= data.len() {
        data.subrange(16 * i, 16 * i + 16)
    } else {
        data.subrange(16 * i, data.len() as int)
    }
}

/// The hex dump of a preview: one line per block of 16 bytes.
pub fn hex_dump_lines(data: &[u8]) -> (r: Vec<String>)
    ensures
        r@.len() == (data@.len() + 15) / 16,
        forall|i: int|
            0 <= i < r@.len() ==> #[trigger] r@[i]@ == crate::text::ascii_chars(dump_line(dump_chunk(data@, i))),
{
    let n = data.len();
    let mut r: Vec<String> = Vec::new();
    let mut start: usize = 0;
    while start < n
        invariant
            n == data@.len(),
            start <= n,
            start <= 16 * r@.len() < start + 16,
            start < 16 * r@.len() ==> start == n,
            start < n ==> start == 16 * r@.len(),
            forall|i: int|
                0 <= i < r@.len() ==> #[trigger] r@[i]@ == crate::text::ascii_chars(dump_line(dump_chunk(data@, i))),
        decreases n - start,
    {
        let end = if n - start >= 16 {
            start + 16
        } else {
            n
        };
        let chunk = vstd::slice::slice_subrange(data, start, end);
        assert(chunk@ == dump_chunk(data@, r@.len() as int));
        r.push(hex_dump_line(chunk));
        start = end;
    }
    proof {
        let len = r@.len() as int;
        let nn = n as int;
        assert(len == (nn + 15) / 16) by (nonlinear_arith)
            requires
                nn <= 16 * len < nn + 16,
                len >= 0,
                nn >= 0,
        ;
    }
    r
}

} // verus!
