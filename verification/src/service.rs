pub mod configservice;
pub mod dbservice;
pub mod ioservice;
pub mod sql;
pub mod testservice;
