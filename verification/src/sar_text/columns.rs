//! The columns of the activities: one number for each, within its activity.

use vstd::prelude::*;

verus! {

pub const CPU_USER: usize = 0;

pub const CPU_NICE: usize = 1;

pub const CPU_SYSTEM: usize = 2;

pub const CPU_IOWAIT: usize = 3;

pub const CPU_STEAL: usize = 4;

pub const CPU_IDLE: usize = 5;

pub const CPU_USR: usize = 6;

pub const CPU_NICE_EXCL_GNICE: usize = 7;

pub const CPU_SYS: usize = 8;

pub const CPU_IRQ: usize = 9;

pub const CPU_SOFT: usize = 10;

pub const CPU_GUEST: usize = 11;

pub const CPU_GNICE: usize = 12;

pub const IRQ_COUNT: usize = 0;

pub const MEM_FREE: usize = 0;

pub const MEM_AVAIL: usize = 1;

pub const MEM_USED: usize = 2;

pub const MEM_USED_PCT: usize = 3;

pub const MEM_BUFFERS: usize = 4;

pub const MEM_CACHED: usize = 5;

pub const MEM_COMMIT: usize = 6;

pub const MEM_COMMIT_PCT: usize = 7;

pub const MEM_ACTIVE: usize = 8;

pub const MEM_INACT: usize = 9;

pub const MEM_DIRTY: usize = 10;

pub const MEM_SHMEM: usize = 11;

pub const MEM_ANONPG: usize = 12;

pub const MEM_SLAB: usize = 13;

pub const MEM_KSTACK: usize = 14;

pub const MEM_PGTBL: usize = 15;

pub const MEM_VMUSED: usize = 16;

pub const MEM_TOTAL: usize = 17;

pub const SWP_FREE: usize = 18;

pub const SWP_USED: usize = 19;

pub const SWP_USED_PCT: usize = 20;

pub const SWP_CAD: usize = 21;

pub const SWP_CAD_PCT: usize = 22;

pub const SWP_TOTAL: usize = 23;

pub const QUEUE_RUNQ: usize = 0;

pub const QUEUE_PLIST: usize = 1;

pub const QUEUE_LDAVG_1: usize = 2;

pub const QUEUE_LDAVG_5: usize = 3;

pub const QUEUE_LDAVG_15: usize = 4;

pub const QUEUE_BLOCKED: usize = 5;

pub const DISK_MAJOR: usize = 0;

pub const DISK_MINOR: usize = 1;

pub const DISK_TPS: usize = 2;

pub const DISK_RKB: usize = 3;

pub const DISK_WKB: usize = 4;

pub const DISK_DKB: usize = 5;

pub const DISK_AREQ_SZ: usize = 6;

pub const DISK_AQU_SZ: usize = 7;

pub const DISK_AWAIT: usize = 8;

pub const DISK_UTIL: usize = 9;

pub const DISK_WWN_HIGH: usize = 10;

pub const DISK_WWN_LOW: usize = 11;

pub const DISK_PART_NR: usize = 12;

pub const NET_IFACE: usize = 0;

pub const NET_RXPCK: usize = 1;

pub const NET_TXPCK: usize = 2;

pub const NET_RXKB: usize = 3;

pub const NET_TXKB: usize = 4;

pub const NET_RXCMP: usize = 5;

pub const NET_TXCMP: usize = 6;

pub const NET_RXMCST: usize = 7;

pub const NET_IFUTIL: usize = 8;

pub const NET_DUPLEX: usize = 9;

pub const PWR_CPU_MHZ: usize = 0;

pub const FAN_RPM: usize = 0;

pub const FAN_DRPM: usize = 1;

pub const TEMP_DEGC: usize = 0;

pub const TEMP_PCT: usize = 1;

pub const IN_VOLTS: usize = 0;

pub const IN_PCT: usize = 1;

pub const HUGE_FREE: usize = 0;

pub const HUGE_USED: usize = 1;

pub const HUGE_USED_PCT: usize = 2;

pub const HUGE_RSVD: usize = 3;

pub const HUGE_SURP: usize = 4;

pub const HUGE_TOTAL: usize = 5;

pub const FREQ_WGH_MHZ: usize = 0;

pub const USB_BUS: usize = 0;

pub const USB_VENDOR: usize = 1;

pub const USB_PRODUCT: usize = 2;

pub const USB_MAX_POWER: usize = 3;

pub const FS_FREE: usize = 0;

pub const FS_USED: usize = 1;

pub const FS_USED_PCT: usize = 2;

pub const FS_UNPRIV_USED_PCT: usize = 3;

pub const FS_IFREE: usize = 4;

pub const FS_IUSED: usize = 5;

pub const FS_IUSED_PCT: usize = 6;

pub const SOFT_TOTAL: usize = 0;

pub const SOFT_DROPD: usize = 1;

pub const SOFT_SQUEEZD: usize = 2;

pub const SOFT_RX_RPS: usize = 3;

pub const SOFT_FLW_LIM: usize = 4;

pub const SOFT_BLG_LEN: usize = 5;

pub const PSI_SOME_10: usize = 0;

pub const PSI_SOME_60: usize = 1;

pub const PSI_SOME_300: usize = 2;

pub const PSI_SOME_TOTAL: usize = 3;

pub const PSI_FULL_10: usize = 4;

pub const PSI_FULL_60: usize = 5;

pub const PSI_FULL_300: usize = 6;

pub const PSI_FULL_TOTAL: usize = 7;

pub const BAT_ID: usize = 0;

pub const BAT_CAP_PCT: usize = 1;

pub const BAT_CAP_PER_MIN: usize = 2;

pub const BAT_STATUS: usize = 3;

pub const SERIAL_LINE: usize = 0;

}
