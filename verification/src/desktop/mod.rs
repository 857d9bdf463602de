//! Logic of the desktop shell: its models, the service-pipe client, the
//! bookkeeping of its commands and the Care Center charging protocol.
pub mod commands;
pub mod cpu_clock;
pub mod models;
pub mod service_pipe;
pub mod smart_charge;
