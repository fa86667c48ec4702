//! Identifiers of the input sources that the default configuration switches to.

use vstd::prelude::*;

verus! {

/// The alphanumeric (Roman) input source.
pub const ALPHANUMERIC: &'static str = "com.apple.inputmethod.Kotoeri.RomajiTyping.Roman";

/// The native-script (Hiragana) input source.
pub const HIRAGANA: &'static str = "com.apple.inputmethod.Kotoeri.RomajiTyping.Japanese";

} // verus!
