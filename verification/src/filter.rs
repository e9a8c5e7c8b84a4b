//! The display filter: which output encodings are enabled for rendering
//! received bytes, and the rendering of a byte chunk under that filter.

use crate::codec::b64_encode_text;
use crate::codec::b64_of;
use crate::codec::hex_encode_text;
use crate::codec::hex_of;
use crate::codec::utf8_decode_text;
use crate::codec::Setting;
use vstd::prelude::*;
use vstd::string::StrSliceExecFns;
use vstd::utf8::decode_utf8;
use vstd::utf8::valid_utf8;

verus! {

/// The set of output encodings in which received bytes are rendered.
/// It may be empty: received bytes are then discarded silently.
#[derive(Copy, Clone, PartialEq, Eq, Structural, Debug)]
pub struct OutputSet {
    pub utf8: bool,
    pub hex: bool,
    pub b64: bool,
}

/// The output set that a filter argument denotes: defined exactly when
/// every character of the argument is one of `u`, `h`, `b`, and then
/// enabling exactly the encodings whose characters occur (duplicates and
/// order are immaterial).
pub open spec fn output_set_of(s: Seq<char>) -> Option<OutputSet> {
    if forall|i: int| 0 <= i < s.len() ==> is_filter_char(#[trigger] s[i]) {
        Some(
            OutputSet {
                utf8: s.contains('u'),
                hex: s.contains('h'),
                b64: s.contains('b'),
            },
        )
    } else {
        None
    }
}

pub open spec fn is_filter_char(c: char) -> bool {
    c == 'u' || c == 'h' || c == 'b'
}

impl OutputSet {
    /// The startup default: all three renderings enabled.
    pub fn full() -> (r: OutputSet)
        ensures
            r == (OutputSet { utf8: true, hex: true, b64: true }),
    {
        OutputSet { utf8: true, hex: true, b64: true }
    }

    pub open spec fn spec_enabled(&self, kind: Setting) -> bool {
        match kind {
            Setting::Utf8 => self.utf8,
            Setting::Hex => self.hex,
            Setting::Base64 => self.b64,
        }
    }

    pub fn is_enabled(&self, kind: Setting) -> (r: bool)
        ensures
            r == self.spec_enabled(kind),
    {
        match kind {
            Setting::Utf8 => self.utf8,
            Setting::Hex => self.hex,
            Setting::Base64 => self.b64,
        }
    }

    /// Parse a filter argument into an output set; `None` exactly when some
    /// character is not one of `u`, `h`, `b`.
    pub fn parse(s: &str) -> (r: Option<OutputSet>)
        ensures
            r == output_set_of(s@),
    {
        let n = s.unicode_len();
        let mut u = false;
        let mut h = false;
        let mut b = false;
        let mut i: usize = 0;
        while i < n
            invariant
                n == s@.len(),
                0 <= i <= n,
                forall|j: int| 0 <= j < i ==> is_filter_char(#[trigger] s@[j]),
                u == exists|j: int| 0 <= j < i && s@[j] == 'u',
                h == exists|j: int| 0 <= j < i && s@[j] == 'h',
                b == exists|j: int| 0 <= j < i && s@[j] == 'b',
            decreases n - i,
        {
            let c = s.get_char(i);
            if c == 'u' {
                u = true;
            } else if c == 'h' {
                h = true;
            } else if c == 'b' {
                b = true;
            } else {
                return None;
            }
            proof {
                assert forall|j: int| 0 <= j < i + 1 implies is_filter_char(#[trigger] s@[j]) by {
                    if j < i {
                    } else {
                        assert(s@[j] == c);
                    }
                }
            }
            i += 1;
        }
        Some(OutputSet { utf8: u, hex: h, b64: b })
    }

    /// Replace this set with the one a filter argument denotes. A malformed
    /// argument fails and leaves the prior set unchanged.
    pub fn try_set(&mut self, s: &str) -> (ok: bool)
        ensures
            ok <==> output_set_of(s@) is Some,
            ok ==> output_set_of(s@) == Some(*final(self)),
            !ok ==> *final(self) == *old(self),
    {
        match Self::parse(s) {
            Some(set) => {
                *self = set;
                true
            },
            None => false,
        }
    }

    /// This set with one rendering switched on or off and the others kept.
    pub open spec fn spec_with(self, kind: Setting, on: bool) -> OutputSet {
        match kind {
            Setting::Utf8 => OutputSet { utf8: on, hex: self.hex, b64: self.b64 },
            Setting::Hex => OutputSet { utf8: self.utf8, hex: on, b64: self.b64 },
            Setting::Base64 => OutputSet { utf8: self.utf8, hex: self.hex, b64: on },
        }
    }

    /// Switch one rendering on or off, leaving the other two as they are.
    pub fn set_enabled(&mut self, kind: Setting, on: bool)
        ensures
            *final(self) == old(self).spec_with(kind, on),
    {
        match kind {
            Setting::Utf8 => self.utf8 = on,
            Setting::Hex => self.hex = on,
            Setting::Base64 => self.b64 = on,
        }
    }

    /// The characters of the enabled encodings, in the fixed order
    /// `u`, `h`, `b`.
    pub open spec fn spec_chars(&self) -> Seq<char> {
        (if self.utf8 {
            seq!['u']
        } else {
            Seq::<char>::empty()
        }) + (if self.hex {
            seq!['h']
        } else {
            Seq::<char>::empty()
        }) + (if self.b64 {
            seq!['b']
        } else {
            Seq::<char>::empty()
        })
    }

    pub fn enabled_chars(&self) -> (r: Vec<char>)
        ensures
            r@ == self.spec_chars(),
    {
        let mut r: Vec<char> = Vec::new();
        if self.utf8 {
            r.push('u');
        }
        if self.hex {
            r.push('h');
        }
        if self.b64 {
            r.push('b');
        }
        proof {
            assert(r@ =~= self.spec_chars());
        }
        r
    }
}

/// One textual rendering of a received byte chunk.
pub struct Rendering {
    pub kind: Setting,
    pub text: String,
}

pub open spec fn rendering_views(v: Seq<Rendering>) -> Seq<(Setting, Seq<char>)> {
    v.map_values(|x: Rendering| (x.kind, x.text@))
}

/// The renderings owed for a byte chunk under an output set: the UTF-8 text
/// where that rendering is enabled and the bytes are valid UTF-8 (otherwise
/// that one rendering is skipped), then the base 64 form, then the
/// hexadecimal form.
pub open spec fn spec_renderings(b: Seq<u8>, o: OutputSet) -> Seq<(Setting, Seq<char>)> {
    (if o.utf8 && valid_utf8(b) {
        seq![(Setting::Utf8, decode_utf8(b))]
    } else {
        Seq::<(Setting, Seq<char>)>::empty()
    }) + (if o.b64 {
        seq![(Setting::Base64, b64_of(b))]
    } else {
        Seq::<(Setting, Seq<char>)>::empty()
    }) + (if o.hex {
        seq![(Setting::Hex, hex_of(b))]
    } else {
        Seq::<(Setting, Seq<char>)>::empty()
    })
}

/// Render a received byte chunk in each enabled output encoding,
/// independently: an invalid-UTF-8 chunk skips only the UTF-8 rendering.
pub fn render(bytes: &[u8], out: &OutputSet) -> (r: Vec<Rendering>)
    ensures
        rendering_views(r@) == spec_renderings(bytes@, *out),
{
    let mut r: Vec<Rendering> = Vec::new();
    if out.utf8 {
        if let Some(text) = utf8_decode_text(bytes) {
            r.push(Rendering { kind: Setting::Utf8, text });
        }
    }
    if out.b64 {
        r.push(Rendering { kind: Setting::Base64, text: b64_encode_text(bytes) });
    }
    if out.hex {
        r.push(Rendering { kind: Setting::Hex, text: hex_encode_text(bytes) });
    }
    proof {
        assert(rendering_views(r@) =~~= spec_renderings(bytes@, *out));
    }
    r
}

} // verus!
