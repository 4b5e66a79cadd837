//! Next.js hydration data read without running JavaScript: the
//! `__NEXT_DATA__` document of the Pages Router and the Flight records that
//! the App Router pushes through `self.__next_f`.
pub mod error;
pub mod transport;
pub mod records;
pub mod document;
pub mod export;
pub mod boundaries;
