//! A driver for the USART serial peripheral, over a model of its register
//! block, whose handle carries its configuration state in its type.
use vstd::prelude::*;

pub mod clock;
pub mod flags;
pub mod instances;
pub mod peripheral;
pub mod registers;
pub mod rx;
pub mod settings;
pub mod state;
pub mod syscon;
pub mod tx;

pub use clock::{Clock, ClockSource, Frg, Fro};
pub use flags::{Flag, Interrupts};
pub use instances::Instance;
pub use peripheral::USART;
pub use rx::RxError;
pub use settings::Settings;
pub use state::{AsyncMode, Disabled, Enabled, SyncMode, Word};

verus! {

#[verifier::external_type_specification]
#[verifier::reject_recursive_types(E)]
pub struct ExNbError<E>(nb::Error<E>);

#[verifier::external_type_specification]
#[verifier::external_body]
pub struct ExVoid(void::Void);

} // verus!
