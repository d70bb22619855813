//! Frames of the infotainment bus.
pub mod x0b6;
pub mod x0f6;
pub mod x122;
pub mod x15b;
pub mod x168;
pub mod x1a5;
pub mod x1a8;
pub mod x1a9;
pub mod x1d0;
pub mod x1e1;
pub mod x1e5;
pub mod x228;
pub mod x236;
pub mod x260;
pub mod x276;
pub mod x2a1;
pub mod x2a8;
pub mod x2ad;
pub mod x2b6;
pub mod x329;
pub mod x350;
pub mod x361;
pub mod x39b;
pub mod x3d0;
pub mod x3e7;

pub use x1e5 as ID_ETAT_RADIO_GEN_AUD;
pub use x260 as ID_BSI_INF_PROFILS;
pub use x276 as ID_DONNEES_BSI_LENTES_3;
pub use x361 as ID_BSI_INF_CFG;
pub use x39b as ID_DMD_MAJ_DATE_HEURE;
