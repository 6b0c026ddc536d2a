use crate::device::Device;
use crate::device::DeviceFirmware;
use crate::ports::seq_views;
use vstd::prelude::*;

verus! {

/// The platform family the updater runs on; it decides how the flashing
/// tool's executable is resolved.
#[derive(Clone, Copy, Debug, PartialEq, Eq, Structural)]
pub enum Platform {
    /// The tool is a bundled executable at a fixed relative path.
    Windows,
    /// The tool is resolved by name through the system search path.
    Unix,
}

/// The flashing tool's program per platform family.
pub open spec fn spec_program(p: Platform) -> Seq<char> {
    match p {
        Platform::Windows => "./vendor/avrdude/windows/avrdude.exe"@,
        Platform::Unix => "avrdude"@,
    }
}

/// Resolves the flashing tool's program for a platform family.
pub fn program_for(p: Platform) -> (r: String)
    ensures
        r@ == spec_program(p),
{
    match p {
        Platform::Windows => String::from_str("./vendor/avrdude/windows/avrdude.exe"),
        Platform::Unix => String::from_str("avrdude"),
    }
}

/// The decimal digit character for a value below ten.
pub open spec fn dec_digit(d: int) -> char {
    if d == 0 {
        '0'
    } else if d == 1 {
        '1'
    } else if d == 2 {
        '2'
    } else if d == 3 {
        '3'
    } else if d == 4 {
        '4'
    } else if d == 5 {
        '5'
    } else if d == 6 {
        '6'
    } else if d == 7 {
        '7'
    } else if d == 8 {
        '8'
    } else {
        '9'
    }
}

/// The decimal representation of `n`, most significant digit first, with no
/// leading zeros (and the single digit `0` for zero).
pub open spec fn dec_rep(n: nat) -> Seq<char>
    decreases n,
{
    if n < 10 {
        seq![dec_digit(n as int)]
    } else {
        dec_rep(n / 10).push(dec_digit((n % 10) as int))
    }
}

/// The characters of a least-significant-first digit list, read back to
/// front.
pub open spec fn digits_chars(ds: Seq<u64>) -> Seq<char>
    decreases ds.len(),
{
    if ds.len() == 0 {
        Seq::empty()
    } else {
        seq![dec_digit(ds.last() as int)] + digits_chars(ds.drop_last())
    }
}

/// The one-character string for a decimal digit value.
fn digit_str(d: u64) -> (r: &'static str)
    requires
        d < 10,
    ensures
        r@ == seq![dec_digit(d as int)],
{
    let r: &'static str = if d == 0 {
        "0"
    } else if d == 1 {
        "1"
    } else if d == 2 {
        "2"
    } else if d == 3 {
        "3"
    } else if d == 4 {
        "4"
    } else if d == 5 {
        "5"
    } else if d == 6 {
        "6"
    } else if d == 7 {
        "7"
    } else if d == 8 {
        "8"
    } else {
        "9"
    };
    proof {
        reveal_strlit("0");
        reveal_strlit("1");
        reveal_strlit("2");
        reveal_strlit("3");
        reveal_strlit("4");
        reveal_strlit("5");
        reveal_strlit("6");
        reveal_strlit("7");
        reveal_strlit("8");
        reveal_strlit("9");
        assert(r@ =~= seq![dec_digit(d as int)]);
    }
    r
}

/// Formats `n` in decimal.
pub fn u64_to_dec_string(n: u64) -> (s: String)
    ensures
        s@ == dec_rep(n as nat),
{
    let mut digits: Vec<u64> = Vec::new();
    let mut m: u64 = n;
    digits.push(m % 10);
    m = m / 10;
    proof {
        assert(digits@ =~= seq![(n % 10) as u64]);
        assert(digits@.drop_last() =~= Seq::<u64>::empty());
        assert(digits_chars(Seq::<u64>::empty()) =~= Seq::<char>::empty());
        assert(digits_chars(digits@) =~= seq![dec_digit((n % 10) as int)]);
        if n < 10 {
            assert(dec_rep(n as nat) =~= seq![dec_digit(n as int)]);
            assert(dec_rep(n as nat) =~= digits_chars(digits@));
        } else {
            assert(dec_rep(n as nat) =~= dec_rep((n / 10) as nat).push(
                dec_digit((n % 10) as int),
            ));
            assert(dec_rep(n as nat) =~= dec_rep(m as nat) + digits_chars(digits@));
        }
    }
    while m != 0
        invariant
            forall|j: int| 0 <= j < digits@.len() ==> digits@[j] < 10,
            digits@.len() > 0,
            m == 0 ==> dec_rep(n as nat) == digits_chars(digits@),
            m > 0 ==> dec_rep(n as nat) == dec_rep(m as nat) + digits_chars(digits@),
        decreases m,
    {
        let ghost pre = digits@;
        let ghost pre_m = m as nat;
        digits.push(m % 10);
        m = m / 10;
        proof {
            assert(digits@.drop_last() =~= pre);
            assert(digits_chars(digits@) =~= seq![dec_digit((pre_m % 10) as int)] + digits_chars(
                pre,
            ));
            if pre_m < 10 {
                assert(dec_rep(pre_m) =~= seq![dec_digit(pre_m as int)]);
                assert(dec_rep(n as nat) =~= digits_chars(digits@));
            } else {
                assert(dec_rep(pre_m) =~= dec_rep(pre_m / 10).push(
                    dec_digit((pre_m % 10) as int),
                ));
                assert(dec_rep(n as nat) =~= dec_rep(m as nat) + digits_chars(digits@));
            }
        }
    }
    let mut s = String::new();
    let mut i: usize = digits.len();
    proof {
        assert(digits@.take(digits@.len() as int) =~= digits@);
        assert(s@ + digits_chars(digits@.take(i as int)) =~= digits_chars(digits@));
    }
    while i > 0
        invariant
            i <= digits@.len(),
            forall|j: int| 0 <= j < digits@.len() ==> digits@[j] < 10,
            dec_rep(n as nat) == digits_chars(digits@),
            s@ + digits_chars(digits@.take(i as int)) == dec_rep(n as nat),
        decreases i,
    {
        let ghost pre_s = s@;
        let d = digits[i - 1];
        s.append(digit_str(d));
        i -= 1;
        proof {
            assert(digits@.take(i + 1).drop_last() =~= digits@.take(i as int));
            assert(digits@.take(i + 1).last() == digits@[i as int]);
            assert(digits_chars(digits@.take(i + 1)) =~= seq![dec_digit(digits@[i as int] as int)]
                + digits_chars(digits@.take(i as int)));
            assert(s@ + digits_chars(digits@.take(i as int)) =~= pre_s + digits_chars(
                digits@.take(i + 1),
            ));
        }
    }
    proof {
        assert(digits@.take(0) =~= Seq::<u64>::empty());
        assert(digits_chars(digits@.take(0)) =~= Seq::<char>::empty());
        assert(s@ =~= dec_rep(n as nat));
    }
    s
}

/// The fully built flashing-tool invocation: one reviewable value holding
/// every parameter that reaches the external tool.
#[derive(Debug)]
pub struct FlashCommand {
    pub program: String,
    pub config: String,
    pub partno: String,
    pub progid: String,
    pub port: String,
    pub baudrate: u64,
    pub memtype: String,
    pub op: String,
    pub filename: String,
    pub filefmt: String,
}

/// Whether `c` is the command that flashes `f` onto `d` through the port
/// named `port` on platform `plat`.
pub open spec fn command_matches(
    c: FlashCommand,
    d: Device,
    f: DeviceFirmware,
    port: Seq<char>,
    plat: Platform,
) -> bool {
    &&& c.program@ == spec_program(plat)
    &&& c.config@ == "./vendor/avrdude/avrdude.conf"@
    &&& c.partno@ == d.partno@
    &&& c.progid@ == d.progid@
    &&& c.port@ == port
    &&& c.baudrate == d.baudrate
    &&& c.memtype@ == d.memtype@
    &&& c.op@ == d.op@
    &&& c.filename@ == f.filename@
    &&& c.filefmt@ == f.filefmt@
}

/// The single write-operation descriptor handed to the tool:
/// `<memtype>:<op>:<image-path>:<format>`, the image sitting in the bundled
/// hex directory.
pub open spec fn spec_update_arg(c: FlashCommand) -> Seq<char> {
    c.memtype@ + ":"@ + c.op@ + ":"@ + "./assets/hex/"@ + c.filename@ + ":"@ + c.filefmt@
}

/// The exact argument vector of the flashing tool:
/// `-C <config> -p <partno> -c <progid> -P <port> -b <baudrate> -D -U
/// <memtype>:<op>:<image-path>:<format>`.
pub open spec fn spec_argv(c: FlashCommand) -> Seq<Seq<char>> {
    seq![
        "-C"@,
        c.config@,
        "-p"@,
        c.partno@,
        "-c"@,
        c.progid@,
        "-P"@,
        c.port@,
        "-b"@,
        dec_rep(c.baudrate as nat),
        "-D"@,
        "-U"@,
        spec_update_arg(c),
    ]
}

impl FlashCommand {
    /// Builds the command for flashing `firmware` onto `device` through the
    /// port named `port`. The port flows into the command unchanged.
    pub fn build(
        device: &Device,
        firmware: &DeviceFirmware,
        port: String,
        platform: Platform,
    ) -> (r: FlashCommand)
        ensures
            command_matches(r, *device, *firmware, port@, platform),
    {
        FlashCommand {
            program: program_for(platform),
            config: String::from_str("./vendor/avrdude/avrdude.conf"),
            partno: device.partno.clone(),
            progid: device.progid.clone(),
            port,
            baudrate: device.baudrate,
            memtype: device.memtype.clone(),
            op: device.op.clone(),
            filename: firmware.filename.clone(),
            filefmt: firmware.filefmt.clone(),
        }
    }

    /// The write-operation descriptor of this command.
    pub fn update_arg(&self) -> (r: String)
        ensures
            r@ == spec_update_arg(*self),
    {
        let mut u = String::new();
        u.append(self.memtype.as_str());
        u.append(":");
        u.append(self.op.as_str());
        u.append(":");
        u.append("./assets/hex/");
        u.append(self.filename.as_str());
        u.append(":");
        u.append(self.filefmt.as_str());
        proof {
            assert(u@ =~= spec_update_arg(*self));
        }
        u
    }

    /// The argument vector handed to the flashing tool, reproducing the
    /// tool's grammar verbatim.
    pub fn argv(&self) -> (r: Vec<String>)
        ensures
            seq_views(r@) == spec_argv(*self),
    {
        let mut v: Vec<String> = Vec::new();
        v.push(String::from_str("-C"));
        v.push(self.config.clone());
        v.push(String::from_str("-p"));
        v.push(self.partno.clone());
        v.push(String::from_str("-c"));
        v.push(self.progid.clone());
        v.push(String::from_str("-P"));
        v.push(self.port.clone());
        v.push(String::from_str("-b"));
        v.push(u64_to_dec_string(self.baudrate));
        v.push(String::from_str("-D"));
        v.push(String::from_str("-U"));
        v.push(self.update_arg());
        proof {
            assert(seq_views(v@) =~= spec_argv(*self));
        }
        v
    }
}

} // verus!
