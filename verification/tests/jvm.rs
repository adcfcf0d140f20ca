use completion_bridge::jvm::JvmError;
use jni::errors::{Error, JniError};

#[test]
fn a_jvm_error_keeps_what_the_virtual_machine_answered() {
    let detached = JvmError::AttachRefused(Error::JniCall(JniError::ThreadDetached));
    assert!(matches!(detached.into_cause(), Error::JniCall(JniError::ThreadDetached)));

    let unavailable = JvmError::JavaVmUnavailable(Error::NullPtr("JavaVM"));
    assert!(matches!(unavailable.into_cause(), Error::NullPtr("JavaVM")));

    let refused = JvmError::GlobalRefRefused(Error::JavaException);
    assert!(matches!(refused.into_cause(), Error::JavaException));

    let unconstructed = JvmError::ConstructionRefused(Error::InvalidCtorReturn);
    assert!(matches!(unconstructed.into_cause(), Error::InvalidCtorReturn));
}
