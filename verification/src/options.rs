//! The command line: `nmosh [--ndi SOURCE_SUBSTRING] [--ndi-dll PATH]
//! [--midi PORT_SUBSTRING] [--width PX] [--height PX]` and `-h`/`--help`.

use vstd::prelude::*;

use crate::text::{names_view, same_text};

verus! {

/// The options of one run.
#[derive(Debug)]
pub struct Options {
    /// Prefer an NDI source whose name contains this text.
    pub ndi_name: Option<String>,
    /// Load the NDI runtime from this path.
    pub ndi_dll: Option<String>,
    /// Prefer a MIDI port whose name contains this text.
    pub midi_name: Option<String>,
    /// Initial window width in pixels.
    pub width: u32,
    /// Initial window height in pixels.
    pub height: u32,
    /// Print the usage and stop.
    pub help: bool,
}

/// The content of `Options`.
pub struct OptionsView {
    pub ndi_name: Option<Seq<char>>,
    pub ndi_dll: Option<Seq<char>>,
    pub midi_name: Option<Seq<char>>,
    pub width: u32,
    pub height: u32,
    pub help: bool,
}

/// The characters of an optional string.
pub open spec fn opt_string_view(s: Option<String>) -> Option<Seq<char>> {
    match s {
        Some(t) => Some(t@),
        None => None,
    }
}

impl View for Options {
    type V = OptionsView;

    open spec fn view(&self) -> OptionsView {
        OptionsView {
            ndi_name: opt_string_view(self.ndi_name),
            ndi_dll: opt_string_view(self.ndi_dll),
            midi_name: opt_string_view(self.midi_name),
            width: self.width,
            height: self.height,
            help: self.help,
        }
    }
}

/// The options before any argument: no preferences, a 1280x720 window.
pub open spec fn default_options() -> OptionsView {
    OptionsView {
        ndi_name: None,
        ndi_dll: None,
        midi_name: None,
        width: 1280,
        height: 720,
        help: false,
    }
}

/// An ASCII decimal digit.
pub open spec fn is_ascii_digit(c: char) -> bool {
    '0' <= c <= '9'
}

/// The number that a string of decimal digits denotes.
pub open spec fn digits_value(s: Seq<char>) -> nat
    decreases s.len(),
{
    if s.len() == 0 {
        0
    } else {
        digits_value(s.drop_last()) * 10 + ((s.last() as int - 48) as nat)
    }
}

/// The digits of an unsigned number's text: an optional leading `+` is
/// dropped.
pub open spec fn unsigned_digits(s: Seq<char>) -> Seq<char> {
    if s.len() > 0 && s[0] == '+' {
        s.drop_first()
    } else {
        s
    }
}

/// What `str::parse::<u32>` accepts: an optional `+` followed by one or more
/// ASCII digits whose value fits in 32 bits; anything else is refused.
pub open spec fn parsed_u32(s: Seq<char>) -> Option<u32> {
    let d = unsigned_digits(s);
    if d.len() > 0 && (forall|i: int| 0 <= i < d.len() ==> is_ascii_digit(#[trigger] d[i]))
        && digits_value(d) <= u32::MAX {
        Some(digits_value(d) as u32)
    } else {
        None
    }
}

/// `str::parse::<u32>`, as the standard library documents `u32::from_str`:
/// an optional `+` sign followed by decimal digits, with a value that fits
/// in `u32`; every other text is an error. Trusted: the result is believed to
/// be `parsed_u32` of the text.
#[verifier::external_body]
fn parse_u32(s: &str) -> (r: Option<u32>)
    ensures
        r == parsed_u32(s@),
{
    s.parse::<u32>().ok()
}

/// The value of a `--width`/`--height` option, or the error message.
pub open spec fn dimension_result(name: Seq<char>, value: Option<Seq<char>>) -> Result<u32, Seq<char>> {
    match value {
        None => Err(name + " requires a positive integer"@),
        Some(text) => match parsed_u32(text) {
            None => Err(name + " must be a positive integer"@),
            Some(n) => if n == 0 {
                Err(name + " must be greater than zero"@)
            } else {
                Ok(n)
            },
        },
    }
}

/// The characters of a result's error text.
pub open spec fn u32_result_view(r: Result<u32, String>) -> Result<u32, Seq<char>> {
    match r {
        Ok(n) => Ok(n),
        Err(e) => Err(e@),
    }
}

/// Reads the value of a size option: it must be given, be a decimal number
/// and be greater than zero.
pub fn parse_dimension(name: &str, value: Option<String>) -> (r: Result<u32, String>)
    ensures
        u32_result_view(r) == dimension_result(name@, opt_string_view(value)),
{
    let text = match value {
        Some(t) => t,
        None => {
            let mut message = name.to_owned();
            message.append(" requires a positive integer");
            return Err(message);
        },
    };
    let parsed = match parse_u32(text.as_str()) {
        Some(n) => n,
        None => {
            let mut message = name.to_owned();
            message.append(" must be a positive integer");
            return Err(message);
        },
    };
    if parsed == 0 {
        let mut message = name.to_owned();
        message.append(" must be greater than zero");
        return Err(message);
    }
    Ok(parsed)
}

/// The options given by `args` (the arguments after the program name),
/// starting from `o`, or the message of the first error.
pub open spec fn parse_from(o: OptionsView, args: Seq<Seq<char>>) -> Result<OptionsView, Seq<char>>
    decreases args.len(),
{
    if args.len() == 0 {
        Ok(o)
    } else {
        let arg = args[0];
        let rest = args.drop_first();
        let next = if rest.len() > 0 { Some(rest[0]) } else { None::<Seq<char>> };
        let after = if rest.len() > 0 { rest.drop_first() } else { rest };
        if arg == "-h"@ || arg == "--help"@ {
            parse_from(OptionsView { help: true, ..o }, rest)
        } else if arg == "--ndi"@ {
            match next {
                None => Err("--ndi requires a source-name substring"@),
                Some(v) => parse_from(OptionsView { ndi_name: Some(v), ..o }, after),
            }
        } else if arg == "--ndi-dll"@ {
            match next {
                None => Err("--ndi-dll requires a DLL/library path"@),
                Some(v) => parse_from(OptionsView { ndi_dll: Some(v), ..o }, after),
            }
        } else if arg == "--midi"@ {
            match next {
                None => Err("--midi requires a port-name substring"@),
                Some(v) => parse_from(OptionsView { midi_name: Some(v), ..o }, after),
            }
        } else if arg == "--width"@ {
            match dimension_result("--width"@, next) {
                Err(e) => Err(e),
                Ok(w) => parse_from(OptionsView { width: w, ..o }, after),
            }
        } else if arg == "--height"@ {
            match dimension_result("--height"@, next) {
                Err(e) => Err(e),
                Ok(h) => parse_from(OptionsView { height: h, ..o }, after),
            }
        } else {
            Err("unknown argument: "@ + arg)
        }
    }
}

/// Every accepted command line gives a window of positive size.
pub proof fn lemma_parsed_sizes_positive(o: OptionsView, args: Seq<Seq<char>>)
    requires
        o.width > 0,
        o.height > 0,
    ensures
        parse_from(o, args) matches Ok(p) ==> p.width > 0 && p.height > 0,
    decreases args.len(),
{
    if args.len() > 0 {
        let rest = args.drop_first();
        let after = if rest.len() > 0 { rest.drop_first() } else { rest };
        let next = if rest.len() > 0 { Some(rest[0]) } else { None::<Seq<char>> };
        lemma_parsed_sizes_positive(OptionsView { help: true, ..o }, rest);
        if rest.len() > 0 {
            lemma_parsed_sizes_positive(OptionsView { ndi_name: Some(rest[0]), ..o }, after);
            lemma_parsed_sizes_positive(OptionsView { ndi_dll: Some(rest[0]), ..o }, after);
            lemma_parsed_sizes_positive(OptionsView { midi_name: Some(rest[0]), ..o }, after);
        }
        if let Ok(w) = dimension_result("--width"@, next) {
            lemma_parsed_sizes_positive(OptionsView { width: w, ..o }, after);
        }
        if let Ok(h) = dimension_result("--height"@, next) {
            lemma_parsed_sizes_positive(OptionsView { height: h, ..o }, after);
        }
    }
}

/// The characters of a parse result.
pub open spec fn options_result_view(r: Result<Options, String>) -> Result<OptionsView, Seq<char>> {
    match r {
        Ok(o) => Ok(o@),
        Err(e) => Err(e@),
    }
}

impl Options {
    /// Reads the command line (the arguments after the program name).
    pub fn from_args(args: &Vec<String>) -> (r: Result<Options, String>)
        ensures
            options_result_view(r) == parse_from(default_options(), names_view(args@)),
    {
        let ghost all = names_view(args@);
        let mut options = Options {
            ndi_name: None,
            ndi_dll: None,
            midi_name: None,
            width: 1280,
            height: 720,
            help: false,
        };
        let mut i: usize = 0;
        proof {
            assert(all.skip(0) =~= all);
        }
        while i < args.len()
            invariant
                all == names_view(args@),
                i <= args.len(),
                parse_from(default_options(), all) == parse_from(options@, all.skip(i as int)),
            decreases args.len() - i,
        {
            let ghost before = options@;
            let ghost tail = all.skip(i as int);
            proof {
                assert(tail[0] == args@[i as int]@);
                assert(tail.drop_first() =~= all.skip(i + 1));
                if i + 1 < args.len() {
                    assert(tail.drop_first()[0] == args@[i + 1]@);
                    assert(tail.drop_first().drop_first() =~= all.skip(i + 2));
                }
            }
            let arg = args[i].as_str();
            let has_next = i + 1 < args.len();
            if same_text(arg, "-h") || same_text(arg, "--help") {
                options.help = true;
                i = i + 1;
            } else if same_text(arg, "--ndi") {
                if !has_next {
                    return Err(String::from_str("--ndi requires a source-name substring"));
                }
                options.ndi_name = Some(args[i + 1].clone());
                i = i + 2;
            } else if same_text(arg, "--ndi-dll") {
                if !has_next {
                    return Err(String::from_str("--ndi-dll requires a DLL/library path"));
                }
                options.ndi_dll = Some(args[i + 1].clone());
                i = i + 2;
            } else if same_text(arg, "--midi") {
                if !has_next {
                    return Err(String::from_str("--midi requires a port-name substring"));
                }
                options.midi_name = Some(args[i + 1].clone());
                i = i + 2;
            } else if same_text(arg, "--width") || same_text(arg, "--height") {
                let is_width = same_text(arg, "--width");
                let next = if has_next {
                    Some(args[i + 1].clone())
                } else {
                    None
                };
                let value = match parse_dimension(arg, next) {
                    Ok(v) => v,
                    Err(e) => return Err(e),
                };
                if is_width {
                    options.width = value;
                } else {
                    options.height = value;
                }
                i = if has_next {
                    i + 2
                } else {
                    i + 1
                };
            } else {
                let mut message = String::from_str("unknown argument: ");
                message.append(arg);
                return Err(message);
            }
        }
        proof {
            assert(all.skip(i as int) =~= Seq::<Seq<char>>::empty());
        }
        Ok(options)
    }
}

} // verus!
