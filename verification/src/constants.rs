use vstd::prelude::*;

verus! {

/// Whether this build is a test-harness build; such builds skip the
/// preemptive timer yield to keep runs deterministic.
pub fn is_test() -> (r: bool)
    ensures
        r == false,
{
    false
}

/// Whether console input/output is wired up in this build.
pub fn should_conio() -> (r: bool)
    ensures
        r == false,
{
    false
}

/// Whether display output is wired up in this build.
pub fn should_displayio() -> (r: bool)
    ensures
        r == false,
{
    false
}

/// Whether the machine powers off once the kernel is finished.
pub fn should_fini_exit() -> (r: bool)
    ensures
        r == false,
{
    false
}

/// Whether the machine halts and waits once the kernel is finished.
pub fn should_fini_wait() -> (r: bool)
    ensures
        r == true,
{
    true
}

/// Whether debug logging is wired up in this build.
pub fn should_debug_log() -> (r: bool)
    ensures
        r == false,
{
    false
}

/// The build switches must name some way to finish: either powering off or
/// halting. This build halts, which this check witnesses statically.
pub fn check_const_correct() {
    let ok = should_fini_exit() || should_fini_wait();
    assert(ok);
}

} // verus!
