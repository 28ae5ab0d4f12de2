//! The canonical Mabo v Queensland (No 2) reading: radical title and native
//! title.
use vstd::prelude::*;

verus! {

pub const MABO_PROPOSITION_REF: &'static str = "mabo:proposition:radical-title-native-title";

pub const MABO_SOURCE_REVISION_REF: &'static str = "source-revision:mabo-hca23";

pub const MABO_BRENNAN_SPAN_REF: &'static str =
    "span:mabo:brennan:radical-title:no-automatic-beneficial-ownership";

} // verus!
