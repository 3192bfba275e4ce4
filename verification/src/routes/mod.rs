//! The two operations of the service, each as a state machine: the machine
//! decides, and whoever runs it performs the requested action and reports
//! what came of it.

pub mod subscription_confirmation;
pub mod subscriptions;

pub use subscription_confirmation::confirm;
pub use subscription_confirmation::Parameters;
pub use subscriptions::subscribe;
pub use subscriptions::FormData;
