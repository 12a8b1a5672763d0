//! The constants of the native library: flag bits, enumeration values and type names, as
//! its header fixes them.

use vstd::prelude::*;

verus! {

pub const CRYPT_ACTIVATE_READONLY: u32 = 1 << 0;
pub const CRYPT_ACTIVATE_NO_UUID: u32 = 1 << 1;
pub const CRYPT_ACTIVATE_SHARED: u32 = 1 << 2;
pub const CRYPT_ACTIVATE_ALLOW_DISCARDS: u32 = 1 << 3;
pub const CRYPT_ACTIVATE_PRIVATE: u32 = 1 << 4;
pub const CRYPT_ACTIVATE_CORRUPTED: u32 = 1 << 5;
pub const CRYPT_ACTIVATE_SAME_CPU_CRYPT: u32 = 1 << 6;
pub const CRYPT_ACTIVATE_SUBMIT_FROM_CRYPT_CPUS: u32 = 1 << 7;
pub const CRYPT_ACTIVATE_IGNORE_CORRUPTION: u32 = 1 << 8;
pub const CRYPT_ACTIVATE_RESTART_ON_CORRUPTION: u32 = 1 << 9;
pub const CRYPT_ACTIVATE_IGNORE_ZERO_BLOCKS: u32 = 1 << 10;
pub const CRYPT_ACTIVATE_KEYRING_KEY: u32 = 1 << 11;
pub const CRYPT_ACTIVATE_NO_JOURNAL: u32 = 1 << 12;
pub const CRYPT_ACTIVATE_RECOVERY: u32 = 1 << 13;
pub const CRYPT_ACTIVATE_IGNORE_PERSISTENT: u32 = 1 << 14;
pub const CRYPT_ACTIVATE_CHECK_AT_MOST_ONCE: u32 = 1 << 15;
pub const CRYPT_ACTIVATE_ALLOW_UNBOUND_KEY: u32 = 1 << 16;
pub const CRYPT_ACTIVATE_RECALCULATE: u32 = 1 << 17;
pub const CRYPT_ACTIVATE_REFRESH: u32 = 1 << 18;
pub const CRYPT_ACTIVATE_SERIALIZE_MEMORY_HARD_PBKDF: u32 = 1 << 19;
pub const CRYPT_ACTIVATE_NO_JOURNAL_BITMAP: u32 = 1 << 20;

pub const CRYPT_DEACTIVATE_DEFERRED: u32 = 1 << 0;
pub const CRYPT_DEACTIVATE_FORCE: u32 = 1 << 1;

pub const CRYPT_VERITY_NO_HEADER: u32 = 1 << 0;
pub const CRYPT_VERITY_CHECK_HASH: u32 = 1 << 1;
pub const CRYPT_VERITY_CREATE_HASH: u32 = 1 << 2;

pub const CRYPT_TCRYPT_LEGACY_MODES: u32 = 1 << 0;
pub const CRYPT_TCRYPT_HIDDEN_HEADER: u32 = 1 << 1;
pub const CRYPT_TCRYPT_BACKUP_HEADER: u32 = 1 << 2;
pub const CRYPT_TCRYPT_SYSTEM_HEADER: u32 = 1 << 3;
pub const CRYPT_TCRYPT_VERA_MODES: u32 = 1 << 4;

pub const CRYPT_PBKDF_ITER_TIME_SET: u32 = 1 << 0;
pub const CRYPT_PBKDF_NO_BENCHMARK: u32 = 1 << 1;

pub const CRYPT_VOLUME_KEY_NO_SEGMENT: u32 = 1 << 0;
pub const CRYPT_VOLUME_KEY_SET: u32 = 1 << 1;
pub const CRYPT_VOLUME_KEY_DIGEST_REUSE: u32 = 1 << 2;

pub const CRYPT_KEYFILE_STOP_EOL: u32 = 1 << 0;

pub const CRYPT_REQUIREMENT_OFFLINE_REENCRYPT: u32 = 1 << 0;
pub const CRYPT_REQUIREMENT_ONLINE_REENCRYPT: u32 = 1 << 1;
pub const CRYPT_REQUIREMENT_UNKNOWN: u32 = 1 << 31;

pub const CRYPT_REENCRYPT_INITIALIZE_ONLY: u32 = 1 << 0;
pub const CRYPT_REENCRYPT_MOVE_FIRST_SEGMENT: u32 = 1 << 1;
pub const CRYPT_REENCRYPT_RESUME_ONLY: u32 = 1 << 2;
pub const CRYPT_REENCRYPT_RECOVERY: u32 = 1 << 3;

pub const CRYPT_RNG_URANDOM: u32 = 0;
pub const CRYPT_RNG_RANDOM: u32 = 1;

pub const CRYPT_SLOT_INVALID: u32 = 0;
pub const CRYPT_SLOT_INACTIVE: u32 = 1;
pub const CRYPT_SLOT_ACTIVE: u32 = 2;
pub const CRYPT_SLOT_ACTIVE_LAST: u32 = 3;
pub const CRYPT_SLOT_UNBOUND: u32 = 4;

pub const CRYPT_SLOT_PRIORITY_INVALID: i32 = -1;
pub const CRYPT_SLOT_PRIORITY_IGNORE: i32 = 0;
pub const CRYPT_SLOT_PRIORITY_NORMAL: i32 = 1;
pub const CRYPT_SLOT_PRIORITY_PREFER: i32 = 2;

pub const CRYPT_REENCRYPT_NONE: u32 = 0;
pub const CRYPT_REENCRYPT_CLEAN: u32 = 1;
pub const CRYPT_REENCRYPT_CRASH: u32 = 2;
pub const CRYPT_REENCRYPT_INVALID: u32 = 3;

pub const CRYPT_REENCRYPT_REENCRYPT: u32 = 0;
pub const CRYPT_REENCRYPT_ENCRYPT: u32 = 1;
pub const CRYPT_REENCRYPT_DECRYPT: u32 = 2;

pub const CRYPT_REENCRYPT_FORWARD: u32 = 0;
pub const CRYPT_REENCRYPT_BACKWARD: u32 = 1;

pub const CRYPT_TOKEN_INVALID: u32 = 0;
pub const CRYPT_TOKEN_INACTIVE: u32 = 1;
pub const CRYPT_TOKEN_INTERNAL: u32 = 2;
pub const CRYPT_TOKEN_INTERNAL_UNKNOWN: u32 = 3;
pub const CRYPT_TOKEN_EXTERNAL: u32 = 4;
pub const CRYPT_TOKEN_EXTERNAL_UNKNOWN: u32 = 5;

pub const CRYPT_WIPE_ZERO: u32 = 0;
pub const CRYPT_WIPE_RANDOM: u32 = 1;
pub const CRYPT_WIPE_ENCRYPTED_ZERO: u32 = 2;
pub const CRYPT_WIPE_SPECIAL: u32 = 3;

pub const CRYPT_INVALID: u32 = 0;
pub const CRYPT_INACTIVE: u32 = 1;
pub const CRYPT_ACTIVE: u32 = 2;
pub const CRYPT_BUSY: u32 = 3;

pub const CRYPT_FLAGS_ACTIVATION: u32 = 0;
pub const CRYPT_FLAGS_REQUIREMENTS: u32 = 1;

pub const CRYPT_DEBUG_ALL: i32 = -1;
pub const CRYPT_DEBUG_JSON: i32 = -2;
pub const CRYPT_DEBUG_NONE: i32 = 0;

pub const CRYPT_LOG_NORMAL: i32 = 0;
pub const CRYPT_LOG_ERROR: i32 = 1;
pub const CRYPT_LOG_VERBOSE: i32 = 2;
pub const CRYPT_LOG_DEBUG: i32 = -1;
pub const CRYPT_LOG_DEBUG_JSON: i32 = -2;

/// Lets the native library pick any free key slot.
pub const CRYPT_ANY_SLOT: i32 = -1;

/// Lets the native library pick any free token.
pub const CRYPT_ANY_TOKEN: i32 = -1;

/// The flag of a wipe that bypasses direct input and output.
pub const CRYPT_WIPE_NO_DIRECT_IO: u32 = 1 << 0;

} // verus!
