//! The table of the native methods the machine implements itself, and their dispatch.
use vstd::prelude::*;

use crate::vm::class::same_text;
use crate::method_info::MethodInfo;
use crate::vm::heap::Heap;
use crate::vm::native::java_lang_class::{class_name_readable, delegate_is_primitive, is_primitive_name};
use crate::vm::native::java_lang_numbers::{delegate_double_to_raw_bits, delegate_float_to_raw_bits, delegate_long_bits_to_double};
use crate::vm::native::java_lang_system::{arraycopy_args, arraycopy_copies, arraycopy_in_bounds, copied, delegate_arraycopy};
use crate::vm::native::sun_misc_unsafe::{ARRAY_BASE_OFFSET, access_in_bounds, bytes_written, cas_args, cas_done, cas_in_bounds, copy_memory_args, copy_memory_in_bounds, delegate_address_size, delegate_allocate_memory, delegate_array_base_offset, delegate_array_index_scale, delegate_compare_and_swap_int, delegate_compare_and_swap_long, delegate_compare_and_swap_object, delegate_copy_memory, delegate_free_memory, delegate_get_byte, delegate_get_int, delegate_get_int_volatile, delegate_get_long, delegate_get_long_volatile, delegate_get_object_volatile, delegate_page_size, delegate_put_int, delegate_put_int_volatile, delegate_put_long, delegate_put_long_volatile, delegate_put_object_volatile, delegate_put_ordered_object, delegate_set_memory, loaded, put_done, put_in_bounds, put_ordered_done, set_memory_args};
use crate::vm::native::{arg, NativeResult};
use crate::vm::strings::{array_of, char_array_bytes, dots_to_slashes, java_cesu8_text, string_chars, CLASS_NAME_INDEX};
use crate::vm::unsafe_memory::memory_chunk::aligned_size;
use crate::vm::unsafe_memory::{as_signed, le_bytes, le_value, unsigned_part, Unsafe};
use crate::vm::value::{RefId, ReferenceValue, Value};
use crate::vm::VmError;

verus! {

/// A registered native method: one that the library runs itself, or one that the
/// machine carries out.
#[derive(Debug, PartialEq, Eq, Structural, Clone, Copy)]
pub enum NativeMethod {
    FloatToRawBits,
    DoubleToRawBits,
    LongBitsToDouble,
    Arraycopy,
    IsPrimitive,
    ArrayBaseOffset,
    ArrayIndexScale,
    AddressSize,
    PutObjectVolatile,
    GetObjectVolatile,
    PutIntVolatile,
    GetIntVolatile,
    PutLongVolatile,
    GetLongVolatile,
    CompareAndSwapObject,
    CompareAndSwapInt,
    CompareAndSwapLong,
    AllocateMemory,
    SetMemory,
    CopyMemory,
    FreeMemory,
    PageSize,
    PutLong,
    GetLong,
    PutInt,
    GetInt,
    GetByte,
    PutOrderedObject,
    /// One that the machine carries out.
    Machine(MachineNative),
}

/// A registered native method that needs the machine's own state (its classes, threads,
/// files, the clock or reflection): the machine carries it out.
#[derive(Debug, PartialEq, Eq, Structural, Clone, Copy)]
pub enum MachineNative {
    WriteBytes,
    ReadBytes,
    Open0,
    Close0,
    Available0,
    GetBooleanAttributes,
    Canonicalize0,
    LastModifiedTime,
    CheckAccess,
    List,
    CreateDirectory,
    RafOpen0,
    RafClose0,
    FillInStackTrace,
    StackTraceDepth,
    Intern,
    CurrentThread,
    IsAlive,
    HoldsLock,
    SetPriority0,
    Start0,
    Yield,
    IsInterrupted,
    AvailableProcessors,
    RuntimeFreeMemory,
    Environ,
    GetSystemPackage0,
    NewArray,
    GetPrimitiveClass,
    GetComponentType,
    GetClassLoader0,
    GetProtectionDomain0,
    DesiredAssertionStatus0,
    GetDeclaredFields0,
    GetDeclaredConstructors0,
    GetDeclaredMethods0,
    GetModifiers,
    GetSuperclass,
    GetEnclosingMethod0,
    GetDeclaringClass0,
    GetDeclaredClasses0,
    ForName0,
    IsInterface,
    IsArray,
    IsAssignableFrom,
    FindLoadedClass0,
    FindBootstrapClass,
    FindBuiltinLib,
    NativeLibLoad,
    GetClass,
    HashCode,
    CloneObject,
    Wait,
    Notify,
    NotifyAll,
    NanoTime,
    CurrentTimeMillis,
    IdentityHashCode,
    SetOut0,
    SetErr0,
    InitProperties,
    MapLibraryName,
    Invoke,
    LinkToStatic,
    GetConstant,
    GetNamedCon,
    MemberObjectFieldOffset,
    GetMembers,
    GetMemberVmInfo,
    MemberInit,
    MemberResolve,
    GetStackAccessControlContext,
    DoPrivileged,
    VmSupportsCs8,
    VmInitialize,
    FindSignal,
    Handle0,
    LookupCacheUrls,
    CreateLong,
    DispatcherInit,
    DispatcherGetcwd,
    ObjectFieldOffset,
    StaticFieldOffset,
    StaticFieldBase,
    DefineClass,
    DefineAnonClass,
    AllocateInstance,
    ShouldBeInitialized,
    EnsureInitialized,
    Park,
    Unpark,
    GetCallerClass,
    GetClassAccessFlags,
    NewInstance0,
    Invoke0,
}

/// The registrations of the natives of `java.io`, in the order they are made.
pub open spec fn io_natives(class: Seq<char>, name: Seq<char>, descriptor: Seq<char>) -> Option<NativeMethod> {
    if class == "java/io/FileOutputStream"@ && name == "writeBytes"@ && descriptor == "([BIIZ)V"@ {
        Some(NativeMethod::Machine(MachineNative::WriteBytes))
    } else if class == "java/io/FileInputStream"@ && name == "readBytes"@ && descriptor == "([BII)I"@ {
        Some(NativeMethod::Machine(MachineNative::ReadBytes))
    } else if class == "java/io/FileInputStream"@ && name == "open0"@ && descriptor == "(Ljava/lang/String;)V"@ {
        Some(NativeMethod::Machine(MachineNative::Open0))
    } else if class == "java/io/FileInputStream"@ && name == "close0"@ && descriptor == "()V"@ {
        Some(NativeMethod::Machine(MachineNative::Close0))
    } else if class == "java/io/FileInputStream"@ && name == "available0"@ && descriptor == "()I"@ {
        Some(NativeMethod::Machine(MachineNative::Available0))
    } else if class == "java/io/UnixFileSystem"@ && name == "getBooleanAttributes0"@ && descriptor == "(Ljava/io/File;)I"@ {
        Some(NativeMethod::Machine(MachineNative::GetBooleanAttributes))
    } else if class == "java/io/UnixFileSystem"@ && name == "canonicalize0"@ && descriptor == "(Ljava/lang/String;)Ljava/lang/String;"@ {
        Some(NativeMethod::Machine(MachineNative::Canonicalize0))
    } else if class == "java/io/UnixFileSystem"@ && name == "getLastModifiedTime"@ && descriptor == "(Ljava/io/File;)J"@ {
        Some(NativeMethod::Machine(MachineNative::LastModifiedTime))
    } else if class == "java/io/UnixFileSystem"@ && name == "checkAccess"@ && descriptor == "(Ljava/io/File;I)Z"@ {
        Some(NativeMethod::Machine(MachineNative::CheckAccess))
    } else if class == "java/io/UnixFileSystem"@ && name == "list"@ && descriptor == "(Ljava/io/File;)[Ljava/lang/String;"@ {
        Some(NativeMethod::Machine(MachineNative::List))
    } else if class == "java/io/UnixFileSystem"@ && name == "createDirectory"@ && descriptor == "(Ljava/io/File;)Z"@ {
        Some(NativeMethod::Machine(MachineNative::CreateDirectory))
    } else if class == "java/io/RandomAccessFile"@ && name == "open0"@ && descriptor == "(Ljava/lang/String;I)V"@ {
        Some(NativeMethod::Machine(MachineNative::RafOpen0))
    } else if class == "java/io/RandomAccessFile"@ && name == "close0"@ && descriptor == "()V"@ {
        Some(NativeMethod::Machine(MachineNative::RafClose0))
    } else {
        None
    }
}

/// The native of `java.io` registered for `name` with `descriptor` of `class`, if any.
fn find_io_native(class: &str, name: &str, descriptor: &str) -> (r: Option<NativeMethod>)
    ensures
        r == io_natives(class@, name@, descriptor@),
{
    if same_text(class, "java/io/FileOutputStream") && same_text(name, "writeBytes") && same_text(descriptor, "([BIIZ)V") {
        Some(NativeMethod::Machine(MachineNative::WriteBytes))
    } else if same_text(class, "java/io/FileInputStream") && same_text(name, "readBytes") && same_text(descriptor, "([BII)I") {
        Some(NativeMethod::Machine(MachineNative::ReadBytes))
    } else if same_text(class, "java/io/FileInputStream") && same_text(name, "open0") && same_text(descriptor, "(Ljava/lang/String;)V") {
        Some(NativeMethod::Machine(MachineNative::Open0))
    } else if same_text(class, "java/io/FileInputStream") && same_text(name, "close0") && same_text(descriptor, "()V") {
        Some(NativeMethod::Machine(MachineNative::Close0))
    } else if same_text(class, "java/io/FileInputStream") && same_text(name, "available0") && same_text(descriptor, "()I") {
        Some(NativeMethod::Machine(MachineNative::Available0))
    } else if same_text(class, "java/io/UnixFileSystem") && same_text(name, "getBooleanAttributes0") && same_text(descriptor, "(Ljava/io/File;)I") {
        Some(NativeMethod::Machine(MachineNative::GetBooleanAttributes))
    } else if same_text(class, "java/io/UnixFileSystem") && same_text(name, "canonicalize0") && same_text(descriptor, "(Ljava/lang/String;)Ljava/lang/String;") {
        Some(NativeMethod::Machine(MachineNative::Canonicalize0))
    } else if same_text(class, "java/io/UnixFileSystem") && same_text(name, "getLastModifiedTime") && same_text(descriptor, "(Ljava/io/File;)J") {
        Some(NativeMethod::Machine(MachineNative::LastModifiedTime))
    } else if same_text(class, "java/io/UnixFileSystem") && same_text(name, "checkAccess") && same_text(descriptor, "(Ljava/io/File;I)Z") {
        Some(NativeMethod::Machine(MachineNative::CheckAccess))
    } else if same_text(class, "java/io/UnixFileSystem") && same_text(name, "list") && same_text(descriptor, "(Ljava/io/File;)[Ljava/lang/String;") {
        Some(NativeMethod::Machine(MachineNative::List))
    } else if same_text(class, "java/io/UnixFileSystem") && same_text(name, "createDirectory") && same_text(descriptor, "(Ljava/io/File;)Z") {
        Some(NativeMethod::Machine(MachineNative::CreateDirectory))
    } else if same_text(class, "java/io/RandomAccessFile") && same_text(name, "open0") && same_text(descriptor, "(Ljava/lang/String;I)V") {
        Some(NativeMethod::Machine(MachineNative::RafOpen0))
    } else if same_text(class, "java/io/RandomAccessFile") && same_text(name, "close0") && same_text(descriptor, "()V") {
        Some(NativeMethod::Machine(MachineNative::RafClose0))
    } else {
        None
    }
}

/// The registrations of the natives of `java.lang` (throwables, strings, threads, the runtime, packages, arrays), in the order they are made.
pub open spec fn lang_natives(class: Seq<char>, name: Seq<char>, descriptor: Seq<char>) -> Option<NativeMethod> {
    if class == "java/lang/Throwable"@ && name == "fillInStackTrace"@ && descriptor == "(I)Ljava/lang/Throwable;"@ {
        Some(NativeMethod::Machine(MachineNative::FillInStackTrace))
    } else if class == "java/lang/Throwable"@ && name == "getStackTraceDepth"@ && descriptor == "()I"@ {
        Some(NativeMethod::Machine(MachineNative::StackTraceDepth))
    } else if class == "java/lang/String"@ && name == "intern"@ && descriptor == "()Ljava/lang/String;"@ {
        Some(NativeMethod::Machine(MachineNative::Intern))
    } else if class == "java/lang/Thread"@ && name == "currentThread"@ && descriptor == "()Ljava/lang/Thread;"@ {
        Some(NativeMethod::Machine(MachineNative::CurrentThread))
    } else if class == "java/lang/Thread"@ && name == "isAlive"@ && descriptor == "()Z"@ {
        Some(NativeMethod::Machine(MachineNative::IsAlive))
    } else if class == "java/lang/Thread"@ && name == "holdsLock"@ && descriptor == "(Ljava/lang/Object;)Z"@ {
        Some(NativeMethod::Machine(MachineNative::HoldsLock))
    } else if class == "java/lang/Thread"@ && name == "setPriority0"@ && descriptor == "(I)V"@ {
        Some(NativeMethod::Machine(MachineNative::SetPriority0))
    } else if class == "java/lang/Thread"@ && name == "start0"@ && descriptor == "()V"@ {
        Some(NativeMethod::Machine(MachineNative::Start0))
    } else if class == "java/lang/Thread"@ && name == "yield"@ && descriptor == "()V"@ {
        Some(NativeMethod::Machine(MachineNative::Yield))
    } else if class == "java/lang/Thread"@ && name == "isInterrupted"@ && descriptor == "(Z)Z"@ {
        Some(NativeMethod::Machine(MachineNative::IsInterrupted))
    } else if class == "java/lang/Runtime"@ && name == "availableProcessors"@ && descriptor == "()I"@ {
        Some(NativeMethod::Machine(MachineNative::AvailableProcessors))
    } else if class == "java/lang/Runtime"@ && name == "freeMemory"@ && descriptor == "()J"@ {
        Some(NativeMethod::Machine(MachineNative::RuntimeFreeMemory))
    } else if class == "java/lang/ProcessEnvironment"@ && name == "environ"@ && descriptor == "()[[B"@ {
        Some(NativeMethod::Machine(MachineNative::Environ))
    } else if class == "java/lang/Package"@ && name == "getSystemPackage0"@ && descriptor == "(Ljava/lang/String;)Ljava/lang/String;"@ {
        Some(NativeMethod::Machine(MachineNative::GetSystemPackage0))
    } else if class == "java/lang/reflect/Array"@ && name == "newArray"@ && descriptor == "(Ljava/lang/Class;I)Ljava/lang/Object;"@ {
        Some(NativeMethod::Machine(MachineNative::NewArray))
    } else {
        None
    }
}

/// The native of `java.lang` (throwables, strings, threads, the runtime, packages, arrays) registered for `name` with `descriptor` of `class`, if any.
fn find_lang_native(class: &str, name: &str, descriptor: &str) -> (r: Option<NativeMethod>)
    ensures
        r == lang_natives(class@, name@, descriptor@),
{
    if same_text(class, "java/lang/Throwable") && same_text(name, "fillInStackTrace") && same_text(descriptor, "(I)Ljava/lang/Throwable;") {
        Some(NativeMethod::Machine(MachineNative::FillInStackTrace))
    } else if same_text(class, "java/lang/Throwable") && same_text(name, "getStackTraceDepth") && same_text(descriptor, "()I") {
        Some(NativeMethod::Machine(MachineNative::StackTraceDepth))
    } else if same_text(class, "java/lang/String") && same_text(name, "intern") && same_text(descriptor, "()Ljava/lang/String;") {
        Some(NativeMethod::Machine(MachineNative::Intern))
    } else if same_text(class, "java/lang/Thread") && same_text(name, "currentThread") && same_text(descriptor, "()Ljava/lang/Thread;") {
        Some(NativeMethod::Machine(MachineNative::CurrentThread))
    } else if same_text(class, "java/lang/Thread") && same_text(name, "isAlive") && same_text(descriptor, "()Z") {
        Some(NativeMethod::Machine(MachineNative::IsAlive))
    } else if same_text(class, "java/lang/Thread") && same_text(name, "holdsLock") && same_text(descriptor, "(Ljava/lang/Object;)Z") {
        Some(NativeMethod::Machine(MachineNative::HoldsLock))
    } else if same_text(class, "java/lang/Thread") && same_text(name, "setPriority0") && same_text(descriptor, "(I)V") {
        Some(NativeMethod::Machine(MachineNative::SetPriority0))
    } else if same_text(class, "java/lang/Thread") && same_text(name, "start0") && same_text(descriptor, "()V") {
        Some(NativeMethod::Machine(MachineNative::Start0))
    } else if same_text(class, "java/lang/Thread") && same_text(name, "yield") && same_text(descriptor, "()V") {
        Some(NativeMethod::Machine(MachineNative::Yield))
    } else if same_text(class, "java/lang/Thread") && same_text(name, "isInterrupted") && same_text(descriptor, "(Z)Z") {
        Some(NativeMethod::Machine(MachineNative::IsInterrupted))
    } else if same_text(class, "java/lang/Runtime") && same_text(name, "availableProcessors") && same_text(descriptor, "()I") {
        Some(NativeMethod::Machine(MachineNative::AvailableProcessors))
    } else if same_text(class, "java/lang/Runtime") && same_text(name, "freeMemory") && same_text(descriptor, "()J") {
        Some(NativeMethod::Machine(MachineNative::RuntimeFreeMemory))
    } else if same_text(class, "java/lang/ProcessEnvironment") && same_text(name, "environ") && same_text(descriptor, "()[[B") {
        Some(NativeMethod::Machine(MachineNative::Environ))
    } else if same_text(class, "java/lang/Package") && same_text(name, "getSystemPackage0") && same_text(descriptor, "(Ljava/lang/String;)Ljava/lang/String;") {
        Some(NativeMethod::Machine(MachineNative::GetSystemPackage0))
    } else if same_text(class, "java/lang/reflect/Array") && same_text(name, "newArray") && same_text(descriptor, "(Ljava/lang/Class;I)Ljava/lang/Object;") {
        Some(NativeMethod::Machine(MachineNative::NewArray))
    } else {
        None
    }
}

/// The registrations of the natives of `java.lang.Class`, in the order they are made.
pub open spec fn class_natives(class: Seq<char>, name: Seq<char>, descriptor: Seq<char>) -> Option<NativeMethod> {
    if class == "java/lang/Class"@ && name == "getPrimitiveClass"@ && descriptor == "(Ljava/lang/String;)Ljava/lang/Class;"@ {
        Some(NativeMethod::Machine(MachineNative::GetPrimitiveClass))
    } else if class == "java/lang/Class"@ && name == "getComponentType"@ && descriptor == "()Ljava/lang/Class;"@ {
        Some(NativeMethod::Machine(MachineNative::GetComponentType))
    } else if class == "java/lang/Class"@ && name == "getClassLoader0"@ && descriptor == "()Ljava/lang/ClassLoader;"@ {
        Some(NativeMethod::Machine(MachineNative::GetClassLoader0))
    } else if class == "java/lang/Class"@ && name == "getProtectionDomain0"@ && descriptor == "()Ljava/security/ProtectionDomain;"@ {
        Some(NativeMethod::Machine(MachineNative::GetProtectionDomain0))
    } else if class == "java/lang/Class"@ && name == "desiredAssertionStatus0"@ && descriptor == "(Ljava/lang/Class;)Z"@ {
        Some(NativeMethod::Machine(MachineNative::DesiredAssertionStatus0))
    } else if class == "java/lang/Class"@ && name == "getDeclaredFields0"@ && descriptor == "(Z)[Ljava/lang/reflect/Field;"@ {
        Some(NativeMethod::Machine(MachineNative::GetDeclaredFields0))
    } else if class == "java/lang/Class"@ && name == "getDeclaredConstructors0"@ && descriptor == "(Z)[Ljava/lang/reflect/Constructor;"@ {
        Some(NativeMethod::Machine(MachineNative::GetDeclaredConstructors0))
    } else if class == "java/lang/Class"@ && name == "getDeclaredMethods0"@ && descriptor == "(Z)[Ljava/lang/reflect/Method;"@ {
        Some(NativeMethod::Machine(MachineNative::GetDeclaredMethods0))
    } else if class == "java/lang/Class"@ && name == "getModifiers"@ && descriptor == "()I"@ {
        Some(NativeMethod::Machine(MachineNative::GetModifiers))
    } else if class == "java/lang/Class"@ && name == "getSuperclass"@ && descriptor == "()Ljava/lang/Class;"@ {
        Some(NativeMethod::Machine(MachineNative::GetSuperclass))
    } else if class == "java/lang/Class"@ && name == "getEnclosingMethod0"@ && descriptor == "()[Ljava/lang/Object;"@ {
        Some(NativeMethod::Machine(MachineNative::GetEnclosingMethod0))
    } else if class == "java/lang/Class"@ && name == "getDeclaringClass0"@ && descriptor == "()Ljava/lang/Class;"@ {
        Some(NativeMethod::Machine(MachineNative::GetDeclaringClass0))
    } else if class == "java/lang/Class"@ && name == "getDeclaredClasses0"@ && descriptor == "()[Ljava/lang/Class;"@ {
        Some(NativeMethod::Machine(MachineNative::GetDeclaredClasses0))
    } else if class == "java/lang/Class"@ && name == "forName0"@ && descriptor == "(Ljava/lang/String;ZLjava/lang/ClassLoader;Ljava/lang/Class;)Ljava/lang/Class;"@ {
        Some(NativeMethod::Machine(MachineNative::ForName0))
    } else if class == "java/lang/Class"@ && name == "isInterface"@ && descriptor == "()Z"@ {
        Some(NativeMethod::Machine(MachineNative::IsInterface))
    } else if class == "java/lang/Class"@ && name == "isArray"@ && descriptor == "()Z"@ {
        Some(NativeMethod::Machine(MachineNative::IsArray))
    } else if class == "java/lang/Class"@ && name == "isPrimitive"@ && descriptor == "()Z"@ {
        Some(NativeMethod::IsPrimitive)
    } else if class == "java/lang/Class"@ && name == "isAssignableFrom"@ && descriptor == "(Ljava/lang/Class;)Z"@ {
        Some(NativeMethod::Machine(MachineNative::IsAssignableFrom))
    } else {
        None
    }
}

/// The native of `java.lang.Class` registered for `name` with `descriptor` of `class`, if any.
fn find_class_native(class: &str, name: &str, descriptor: &str) -> (r: Option<NativeMethod>)
    ensures
        r == class_natives(class@, name@, descriptor@),
{
    if same_text(class, "java/lang/Class") && same_text(name, "getPrimitiveClass") && same_text(descriptor, "(Ljava/lang/String;)Ljava/lang/Class;") {
        Some(NativeMethod::Machine(MachineNative::GetPrimitiveClass))
    } else if same_text(class, "java/lang/Class") && same_text(name, "getComponentType") && same_text(descriptor, "()Ljava/lang/Class;") {
        Some(NativeMethod::Machine(MachineNative::GetComponentType))
    } else if same_text(class, "java/lang/Class") && same_text(name, "getClassLoader0") && same_text(descriptor, "()Ljava/lang/ClassLoader;") {
        Some(NativeMethod::Machine(MachineNative::GetClassLoader0))
    } else if same_text(class, "java/lang/Class") && same_text(name, "getProtectionDomain0") && same_text(descriptor, "()Ljava/security/ProtectionDomain;") {
        Some(NativeMethod::Machine(MachineNative::GetProtectionDomain0))
    } else if same_text(class, "java/lang/Class") && same_text(name, "desiredAssertionStatus0") && same_text(descriptor, "(Ljava/lang/Class;)Z") {
        Some(NativeMethod::Machine(MachineNative::DesiredAssertionStatus0))
    } else if same_text(class, "java/lang/Class") && same_text(name, "getDeclaredFields0") && same_text(descriptor, "(Z)[Ljava/lang/reflect/Field;") {
        Some(NativeMethod::Machine(MachineNative::GetDeclaredFields0))
    } else if same_text(class, "java/lang/Class") && same_text(name, "getDeclaredConstructors0") && same_text(descriptor, "(Z)[Ljava/lang/reflect/Constructor;") {
        Some(NativeMethod::Machine(MachineNative::GetDeclaredConstructors0))
    } else if same_text(class, "java/lang/Class") && same_text(name, "getDeclaredMethods0") && same_text(descriptor, "(Z)[Ljava/lang/reflect/Method;") {
        Some(NativeMethod::Machine(MachineNative::GetDeclaredMethods0))
    } else if same_text(class, "java/lang/Class") && same_text(name, "getModifiers") && same_text(descriptor, "()I") {
        Some(NativeMethod::Machine(MachineNative::GetModifiers))
    } else if same_text(class, "java/lang/Class") && same_text(name, "getSuperclass") && same_text(descriptor, "()Ljava/lang/Class;") {
        Some(NativeMethod::Machine(MachineNative::GetSuperclass))
    } else if same_text(class, "java/lang/Class") && same_text(name, "getEnclosingMethod0") && same_text(descriptor, "()[Ljava/lang/Object;") {
        Some(NativeMethod::Machine(MachineNative::GetEnclosingMethod0))
    } else if same_text(class, "java/lang/Class") && same_text(name, "getDeclaringClass0") && same_text(descriptor, "()Ljava/lang/Class;") {
        Some(NativeMethod::Machine(MachineNative::GetDeclaringClass0))
    } else if same_text(class, "java/lang/Class") && same_text(name, "getDeclaredClasses0") && same_text(descriptor, "()[Ljava/lang/Class;") {
        Some(NativeMethod::Machine(MachineNative::GetDeclaredClasses0))
    } else if same_text(class, "java/lang/Class") && same_text(name, "forName0") && same_text(descriptor, "(Ljava/lang/String;ZLjava/lang/ClassLoader;Ljava/lang/Class;)Ljava/lang/Class;") {
        Some(NativeMethod::Machine(MachineNative::ForName0))
    } else if same_text(class, "java/lang/Class") && same_text(name, "isInterface") && same_text(descriptor, "()Z") {
        Some(NativeMethod::Machine(MachineNative::IsInterface))
    } else if same_text(class, "java/lang/Class") && same_text(name, "isArray") && same_text(descriptor, "()Z") {
        Some(NativeMethod::Machine(MachineNative::IsArray))
    } else if same_text(class, "java/lang/Class") && same_text(name, "isPrimitive") && same_text(descriptor, "()Z") {
        Some(NativeMethod::IsPrimitive)
    } else if same_text(class, "java/lang/Class") && same_text(name, "isAssignableFrom") && same_text(descriptor, "(Ljava/lang/Class;)Z") {
        Some(NativeMethod::Machine(MachineNative::IsAssignableFrom))
    } else {
        None
    }
}

/// The registrations of the natives of `java.lang.ClassLoader`, in the order they are made.
pub open spec fn class_loader_natives(class: Seq<char>, name: Seq<char>, descriptor: Seq<char>) -> Option<NativeMethod> {
    if class == "java/lang/ClassLoader"@ && name == "findLoadedClass0"@ && descriptor == "(Ljava/lang/String;)Ljava/lang/Class;"@ {
        Some(NativeMethod::Machine(MachineNative::FindLoadedClass0))
    } else if class == "java/lang/ClassLoader"@ && name == "findBootstrapClass"@ && descriptor == "(Ljava/lang/String;)Ljava/lang/Class;"@ {
        Some(NativeMethod::Machine(MachineNative::FindBootstrapClass))
    } else if class == "java/lang/ClassLoader"@ && name == "findBuiltinLib"@ && descriptor == "(Ljava/lang/String;)Ljava/lang/String;"@ {
        Some(NativeMethod::Machine(MachineNative::FindBuiltinLib))
    } else if class == "java/lang/ClassLoader$NativeLibrary"@ && name == "load"@ && descriptor == "(Ljava/lang/String;Z)V"@ {
        Some(NativeMethod::Machine(MachineNative::NativeLibLoad))
    } else {
        None
    }
}

/// The native of `java.lang.ClassLoader` registered for `name` with `descriptor` of `class`, if any.
fn find_class_loader_native(class: &str, name: &str, descriptor: &str) -> (r: Option<NativeMethod>)
    ensures
        r == class_loader_natives(class@, name@, descriptor@),
{
    if same_text(class, "java/lang/ClassLoader") && same_text(name, "findLoadedClass0") && same_text(descriptor, "(Ljava/lang/String;)Ljava/lang/Class;") {
        Some(NativeMethod::Machine(MachineNative::FindLoadedClass0))
    } else if same_text(class, "java/lang/ClassLoader") && same_text(name, "findBootstrapClass") && same_text(descriptor, "(Ljava/lang/String;)Ljava/lang/Class;") {
        Some(NativeMethod::Machine(MachineNative::FindBootstrapClass))
    } else if same_text(class, "java/lang/ClassLoader") && same_text(name, "findBuiltinLib") && same_text(descriptor, "(Ljava/lang/String;)Ljava/lang/String;") {
        Some(NativeMethod::Machine(MachineNative::FindBuiltinLib))
    } else if same_text(class, "java/lang/ClassLoader$NativeLibrary") && same_text(name, "load") && same_text(descriptor, "(Ljava/lang/String;Z)V") {
        Some(NativeMethod::Machine(MachineNative::NativeLibLoad))
    } else {
        None
    }
}

/// The registrations of the natives of `java.lang.Float` and `java.lang.Double`, in the order they are made.
pub open spec fn number_natives(class: Seq<char>, name: Seq<char>, descriptor: Seq<char>) -> Option<NativeMethod> {
    if class == "java/lang/Float"@ && name == "floatToRawIntBits"@ && descriptor == "(F)I"@ {
        Some(NativeMethod::FloatToRawBits)
    } else if class == "java/lang/Double"@ && name == "doubleToRawLongBits"@ && descriptor == "(D)J"@ {
        Some(NativeMethod::DoubleToRawBits)
    } else if class == "java/lang/Double"@ && name == "longBitsToDouble"@ && descriptor == "(J)D"@ {
        Some(NativeMethod::LongBitsToDouble)
    } else {
        None
    }
}

/// The native of `java.lang.Float` and `java.lang.Double` registered for `name` with `descriptor` of `class`, if any.
fn find_number_native(class: &str, name: &str, descriptor: &str) -> (r: Option<NativeMethod>)
    ensures
        r == number_natives(class@, name@, descriptor@),
{
    if same_text(class, "java/lang/Float") && same_text(name, "floatToRawIntBits") && same_text(descriptor, "(F)I") {
        Some(NativeMethod::FloatToRawBits)
    } else if same_text(class, "java/lang/Double") && same_text(name, "doubleToRawLongBits") && same_text(descriptor, "(D)J") {
        Some(NativeMethod::DoubleToRawBits)
    } else if same_text(class, "java/lang/Double") && same_text(name, "longBitsToDouble") && same_text(descriptor, "(J)D") {
        Some(NativeMethod::LongBitsToDouble)
    } else {
        None
    }
}

/// The registrations of the natives of `java.lang.Object` and `Object[]`, in the order they are made.
pub open spec fn object_natives(class: Seq<char>, name: Seq<char>, descriptor: Seq<char>) -> Option<NativeMethod> {
    if class == "java/lang/Object"@ && name == "getClass"@ && descriptor == "()Ljava/lang/Class;"@ {
        Some(NativeMethod::Machine(MachineNative::GetClass))
    } else if class == "java/lang/Object"@ && name == "hashCode"@ && descriptor == "()I"@ {
        Some(NativeMethod::Machine(MachineNative::HashCode))
    } else if class == "java/lang/Object"@ && name == "clone"@ && descriptor == "()Ljava/lang/Object;"@ {
        Some(NativeMethod::Machine(MachineNative::CloneObject))
    } else if class == "java/lang/Object"@ && name == "wait"@ && descriptor == "(J)V"@ {
        Some(NativeMethod::Machine(MachineNative::Wait))
    } else if class == "java/lang/Object"@ && name == "notify"@ && descriptor == "()V"@ {
        Some(NativeMethod::Machine(MachineNative::Notify))
    } else if class == "java/lang/Object"@ && name == "notifyAll"@ && descriptor == "()V"@ {
        Some(NativeMethod::Machine(MachineNative::NotifyAll))
    } else if class == "[Ljava/lang/Object;"@ && name == "getClass"@ && descriptor == "()Ljava/lang/Class;"@ {
        Some(NativeMethod::Machine(MachineNative::GetClass))
    } else if class == "[Ljava/lang/Object;"@ && name == "clone"@ && descriptor == "()Ljava/lang/Object;"@ {
        Some(NativeMethod::Machine(MachineNative::CloneObject))
    } else {
        None
    }
}

/// The native of `java.lang.Object` and `Object[]` registered for `name` with `descriptor` of `class`, if any.
fn find_object_native(class: &str, name: &str, descriptor: &str) -> (r: Option<NativeMethod>)
    ensures
        r == object_natives(class@, name@, descriptor@),
{
    if same_text(class, "java/lang/Object") && same_text(name, "getClass") && same_text(descriptor, "()Ljava/lang/Class;") {
        Some(NativeMethod::Machine(MachineNative::GetClass))
    } else if same_text(class, "java/lang/Object") && same_text(name, "hashCode") && same_text(descriptor, "()I") {
        Some(NativeMethod::Machine(MachineNative::HashCode))
    } else if same_text(class, "java/lang/Object") && same_text(name, "clone") && same_text(descriptor, "()Ljava/lang/Object;") {
        Some(NativeMethod::Machine(MachineNative::CloneObject))
    } else if same_text(class, "java/lang/Object") && same_text(name, "wait") && same_text(descriptor, "(J)V") {
        Some(NativeMethod::Machine(MachineNative::Wait))
    } else if same_text(class, "java/lang/Object") && same_text(name, "notify") && same_text(descriptor, "()V") {
        Some(NativeMethod::Machine(MachineNative::Notify))
    } else if same_text(class, "java/lang/Object") && same_text(name, "notifyAll") && same_text(descriptor, "()V") {
        Some(NativeMethod::Machine(MachineNative::NotifyAll))
    } else if same_text(class, "[Ljava/lang/Object;") && same_text(name, "getClass") && same_text(descriptor, "()Ljava/lang/Class;") {
        Some(NativeMethod::Machine(MachineNative::GetClass))
    } else if same_text(class, "[Ljava/lang/Object;") && same_text(name, "clone") && same_text(descriptor, "()Ljava/lang/Object;") {
        Some(NativeMethod::Machine(MachineNative::CloneObject))
    } else {
        None
    }
}

/// The registrations of the natives of `java.lang.System`, in the order they are made.
pub open spec fn system_natives(class: Seq<char>, name: Seq<char>, descriptor: Seq<char>) -> Option<NativeMethod> {
    if class == "java/lang/System"@ && name == "nanoTime"@ && descriptor == "()J"@ {
        Some(NativeMethod::Machine(MachineNative::NanoTime))
    } else if class == "java/lang/System"@ && name == "currentTimeMillis"@ && descriptor == "()J"@ {
        Some(NativeMethod::Machine(MachineNative::CurrentTimeMillis))
    } else if class == "java/lang/System"@ && name == "identityHashCode"@ && descriptor == "(Ljava/lang/Object;)I"@ {
        Some(NativeMethod::Machine(MachineNative::IdentityHashCode))
    } else if class == "java/lang/System"@ && name == "setOut0"@ && descriptor == "(Ljava/io/PrintStream;)V"@ {
        Some(NativeMethod::Machine(MachineNative::SetOut0))
    } else if class == "java/lang/System"@ && name == "setErr0"@ && descriptor == "(Ljava/io/PrintStream;)V"@ {
        Some(NativeMethod::Machine(MachineNative::SetErr0))
    } else if class == "java/lang/System"@ && name == "arraycopy"@ && descriptor == "(Ljava/lang/Object;ILjava/lang/Object;II)V"@ {
        Some(NativeMethod::Arraycopy)
    } else if class == "java/lang/System"@ && name == "initProperties"@ && descriptor == "(Ljava/util/Properties;)Ljava/util/Properties;"@ {
        Some(NativeMethod::Machine(MachineNative::InitProperties))
    } else if class == "java/lang/System"@ && name == "mapLibraryName"@ && descriptor == "(Ljava/lang/String;)Ljava/lang/String;"@ {
        Some(NativeMethod::Machine(MachineNative::MapLibraryName))
    } else {
        None
    }
}

/// The native of `java.lang.System` registered for `name` with `descriptor` of `class`, if any.
fn find_system_native(class: &str, name: &str, descriptor: &str) -> (r: Option<NativeMethod>)
    ensures
        r == system_natives(class@, name@, descriptor@),
{
    if same_text(class, "java/lang/System") && same_text(name, "nanoTime") && same_text(descriptor, "()J") {
        Some(NativeMethod::Machine(MachineNative::NanoTime))
    } else if same_text(class, "java/lang/System") && same_text(name, "currentTimeMillis") && same_text(descriptor, "()J") {
        Some(NativeMethod::Machine(MachineNative::CurrentTimeMillis))
    } else if same_text(class, "java/lang/System") && same_text(name, "identityHashCode") && same_text(descriptor, "(Ljava/lang/Object;)I") {
        Some(NativeMethod::Machine(MachineNative::IdentityHashCode))
    } else if same_text(class, "java/lang/System") && same_text(name, "setOut0") && same_text(descriptor, "(Ljava/io/PrintStream;)V") {
        Some(NativeMethod::Machine(MachineNative::SetOut0))
    } else if same_text(class, "java/lang/System") && same_text(name, "setErr0") && same_text(descriptor, "(Ljava/io/PrintStream;)V") {
        Some(NativeMethod::Machine(MachineNative::SetErr0))
    } else if same_text(class, "java/lang/System") && same_text(name, "arraycopy") && same_text(descriptor, "(Ljava/lang/Object;ILjava/lang/Object;II)V") {
        Some(NativeMethod::Arraycopy)
    } else if same_text(class, "java/lang/System") && same_text(name, "initProperties") && same_text(descriptor, "(Ljava/util/Properties;)Ljava/util/Properties;") {
        Some(NativeMethod::Machine(MachineNative::InitProperties))
    } else if same_text(class, "java/lang/System") && same_text(name, "mapLibraryName") && same_text(descriptor, "(Ljava/lang/String;)Ljava/lang/String;") {
        Some(NativeMethod::Machine(MachineNative::MapLibraryName))
    } else {
        None
    }
}

/// The registrations of the natives of `java.lang.invoke`, in the order they are made.
pub open spec fn method_handle_natives(class: Seq<char>, name: Seq<char>, descriptor: Seq<char>) -> Option<NativeMethod> {
    if class == "java/lang/invoke/MethodHandle"@ && name == "invoke"@ && descriptor == "([Ljava/lang/Object;)Ljava/lang/Object;"@ {
        Some(NativeMethod::Machine(MachineNative::Invoke))
    } else if class == "java/lang/invoke/MethodHandle"@ && name == "invokeBasic"@ && descriptor == "([Ljava/lang/Object;)Ljava/lang/Object;"@ {
        Some(NativeMethod::Machine(MachineNative::Invoke))
    } else if class == "java/lang/invoke/MethodHandle"@ && name == "invokeExact"@ && descriptor == "([Ljava/lang/Object;)Ljava/lang/Object;"@ {
        Some(NativeMethod::Machine(MachineNative::Invoke))
    } else if class == "java/lang/invoke/MethodHandle"@ && name == "linkToStatic"@ && descriptor == "([Ljava/lang/Object;)Ljava/lang/Object;"@ {
        Some(NativeMethod::Machine(MachineNative::LinkToStatic))
    } else if class == "java/lang/invoke/MethodHandleNatives"@ && name == "getConstant"@ && descriptor == "(I)I"@ {
        Some(NativeMethod::Machine(MachineNative::GetConstant))
    } else if class == "java/lang/invoke/MethodHandleNatives"@ && name == "getNamedCon"@ && descriptor == "(I[Ljava/lang/Object;)I"@ {
        Some(NativeMethod::Machine(MachineNative::GetNamedCon))
    } else if class == "java/lang/invoke/MethodHandleNatives"@ && name == "objectFieldOffset"@ && descriptor == "(Ljava/lang/invoke/MemberName;)J"@ {
        Some(NativeMethod::Machine(MachineNative::MemberObjectFieldOffset))
    } else if class == "java/lang/invoke/MethodHandleNatives"@ && name == "getMembers"@ && descriptor == "(Ljava/lang/Class;Ljava/lang/String;Ljava/lang/String;ILjava/lang/Class;I[Ljava/lang/invoke/MemberName;)I"@ {
        Some(NativeMethod::Machine(MachineNative::GetMembers))
    } else if class == "java/lang/invoke/MethodHandleNatives"@ && name == "getMemberVMInfo"@ && descriptor == "(Ljava/lang/invoke/MemberName;)Ljava/lang/Object;"@ {
        Some(NativeMethod::Machine(MachineNative::GetMemberVmInfo))
    } else if class == "java/lang/invoke/MethodHandleNatives"@ && name == "init"@ && descriptor == "(Ljava/lang/invoke/MemberName;Ljava/lang/Object;)V"@ {
        Some(NativeMethod::Machine(MachineNative::MemberInit))
    } else if class == "java/lang/invoke/MethodHandleNatives"@ && name == "resolve"@ && descriptor == "(Ljava/lang/invoke/MemberName;Ljava/lang/Class;)Ljava/lang/invoke/MemberName;"@ {
        Some(NativeMethod::Machine(MachineNative::MemberResolve))
    } else {
        None
    }
}

/// The native of `java.lang.invoke` registered for `name` with `descriptor` of `class`, if any.
fn find_method_handle_native(class: &str, name: &str, descriptor: &str) -> (r: Option<NativeMethod>)
    ensures
        r == method_handle_natives(class@, name@, descriptor@),
{
    if same_text(class, "java/lang/invoke/MethodHandle") && same_text(name, "invoke") && same_text(descriptor, "([Ljava/lang/Object;)Ljava/lang/Object;") {
        Some(NativeMethod::Machine(MachineNative::Invoke))
    } else if same_text(class, "java/lang/invoke/MethodHandle") && same_text(name, "invokeBasic") && same_text(descriptor, "([Ljava/lang/Object;)Ljava/lang/Object;") {
        Some(NativeMethod::Machine(MachineNative::Invoke))
    } else if same_text(class, "java/lang/invoke/MethodHandle") && same_text(name, "invokeExact") && same_text(descriptor, "([Ljava/lang/Object;)Ljava/lang/Object;") {
        Some(NativeMethod::Machine(MachineNative::Invoke))
    } else if same_text(class, "java/lang/invoke/MethodHandle") && same_text(name, "linkToStatic") && same_text(descriptor, "([Ljava/lang/Object;)Ljava/lang/Object;") {
        Some(NativeMethod::Machine(MachineNative::LinkToStatic))
    } else if same_text(class, "java/lang/invoke/MethodHandleNatives") && same_text(name, "getConstant") && same_text(descriptor, "(I)I") {
        Some(NativeMethod::Machine(MachineNative::GetConstant))
    } else if same_text(class, "java/lang/invoke/MethodHandleNatives") && same_text(name, "getNamedCon") && same_text(descriptor, "(I[Ljava/lang/Object;)I") {
        Some(NativeMethod::Machine(MachineNative::GetNamedCon))
    } else if same_text(class, "java/lang/invoke/MethodHandleNatives") && same_text(name, "objectFieldOffset") && same_text(descriptor, "(Ljava/lang/invoke/MemberName;)J") {
        Some(NativeMethod::Machine(MachineNative::MemberObjectFieldOffset))
    } else if same_text(class, "java/lang/invoke/MethodHandleNatives") && same_text(name, "getMembers") && same_text(descriptor, "(Ljava/lang/Class;Ljava/lang/String;Ljava/lang/String;ILjava/lang/Class;I[Ljava/lang/invoke/MemberName;)I") {
        Some(NativeMethod::Machine(MachineNative::GetMembers))
    } else if same_text(class, "java/lang/invoke/MethodHandleNatives") && same_text(name, "getMemberVMInfo") && same_text(descriptor, "(Ljava/lang/invoke/MemberName;)Ljava/lang/Object;") {
        Some(NativeMethod::Machine(MachineNative::GetMemberVmInfo))
    } else if same_text(class, "java/lang/invoke/MethodHandleNatives") && same_text(name, "init") && same_text(descriptor, "(Ljava/lang/invoke/MemberName;Ljava/lang/Object;)V") {
        Some(NativeMethod::Machine(MachineNative::MemberInit))
    } else if same_text(class, "java/lang/invoke/MethodHandleNatives") && same_text(name, "resolve") && same_text(descriptor, "(Ljava/lang/invoke/MemberName;Ljava/lang/Class;)Ljava/lang/invoke/MemberName;") {
        Some(NativeMethod::Machine(MachineNative::MemberResolve))
    } else {
        None
    }
}

/// The registrations of the natives of `java.security` and atomics, in the order they are made.
pub open spec fn security_natives(class: Seq<char>, name: Seq<char>, descriptor: Seq<char>) -> Option<NativeMethod> {
    if class == "java/security/AccessController"@ && name == "getStackAccessControlContext"@ && descriptor == "()Ljava/security/AccessControlContext;"@ {
        Some(NativeMethod::Machine(MachineNative::GetStackAccessControlContext))
    } else if class == "java/security/AccessController"@ && name == "doPrivileged"@ && descriptor == "(Ljava/security/PrivilegedAction;)Ljava/lang/Object;"@ {
        Some(NativeMethod::Machine(MachineNative::DoPrivileged))
    } else if class == "java/security/AccessController"@ && name == "doPrivileged"@ && descriptor == "(Ljava/security/PrivilegedAction;Ljava/security/AccessControlContext;)Ljava/lang/Object;"@ {
        Some(NativeMethod::Machine(MachineNative::DoPrivileged))
    } else if class == "java/security/AccessController"@ && name == "doPrivileged"@ && descriptor == "(Ljava/security/PrivilegedExceptionAction;)Ljava/lang/Object;"@ {
        Some(NativeMethod::Machine(MachineNative::DoPrivileged))
    } else if class == "java/security/AccessController"@ && name == "doPrivileged"@ && descriptor == "(Ljava/security/PrivilegedExceptionAction;Ljava/security/AccessControlContext;)Ljava/lang/Object;"@ {
        Some(NativeMethod::Machine(MachineNative::DoPrivileged))
    } else if class == "java/util/concurrent/atomic/AtomicLong"@ && name == "VMSupportsCS8"@ && descriptor == "()Z"@ {
        Some(NativeMethod::Machine(MachineNative::VmSupportsCs8))
    } else {
        None
    }
}

/// The native of `java.security` and atomics registered for `name` with `descriptor` of `class`, if any.
fn find_security_native(class: &str, name: &str, descriptor: &str) -> (r: Option<NativeMethod>)
    ensures
        r == security_natives(class@, name@, descriptor@),
{
    if same_text(class, "java/security/AccessController") && same_text(name, "getStackAccessControlContext") && same_text(descriptor, "()Ljava/security/AccessControlContext;") {
        Some(NativeMethod::Machine(MachineNative::GetStackAccessControlContext))
    } else if same_text(class, "java/security/AccessController") && same_text(name, "doPrivileged") && same_text(descriptor, "(Ljava/security/PrivilegedAction;)Ljava/lang/Object;") {
        Some(NativeMethod::Machine(MachineNative::DoPrivileged))
    } else if same_text(class, "java/security/AccessController") && same_text(name, "doPrivileged") && same_text(descriptor, "(Ljava/security/PrivilegedAction;Ljava/security/AccessControlContext;)Ljava/lang/Object;") {
        Some(NativeMethod::Machine(MachineNative::DoPrivileged))
    } else if same_text(class, "java/security/AccessController") && same_text(name, "doPrivileged") && same_text(descriptor, "(Ljava/security/PrivilegedExceptionAction;)Ljava/lang/Object;") {
        Some(NativeMethod::Machine(MachineNative::DoPrivileged))
    } else if same_text(class, "java/security/AccessController") && same_text(name, "doPrivileged") && same_text(descriptor, "(Ljava/security/PrivilegedExceptionAction;Ljava/security/AccessControlContext;)Ljava/lang/Object;") {
        Some(NativeMethod::Machine(MachineNative::DoPrivileged))
    } else if same_text(class, "java/util/concurrent/atomic/AtomicLong") && same_text(name, "VMSupportsCS8") && same_text(descriptor, "()Z") {
        Some(NativeMethod::Machine(MachineNative::VmSupportsCs8))
    } else {
        None
    }
}

/// The registrations of the natives of `sun.misc` and `sun.nio`, in the order they are made.
pub open spec fn sun_misc_natives(class: Seq<char>, name: Seq<char>, descriptor: Seq<char>) -> Option<NativeMethod> {
    if class == "sun/misc/VM"@ && name == "initialize"@ && descriptor == "()V"@ {
        Some(NativeMethod::Machine(MachineNative::VmInitialize))
    } else if class == "sun/misc/Signal"@ && name == "findSignal"@ && descriptor == "(Ljava/lang/String;)I"@ {
        Some(NativeMethod::Machine(MachineNative::FindSignal))
    } else if class == "sun/misc/Signal"@ && name == "handle0"@ && descriptor == "(IJ)J"@ {
        Some(NativeMethod::Machine(MachineNative::Handle0))
    } else if class == "sun/misc/URLClassPath"@ && name == "getLookupCacheURLs"@ && descriptor == "(Ljava/lang/ClassLoader;)[Ljava/net/URL;"@ {
        Some(NativeMethod::Machine(MachineNative::LookupCacheUrls))
    } else if class == "sun/misc/Perf"@ && name == "createLong"@ && descriptor == "(Ljava/lang/String;IIJ)Ljava/nio/ByteBuffer;"@ {
        Some(NativeMethod::Machine(MachineNative::CreateLong))
    } else if class == "sun/nio/fs/UnixNativeDispatcher"@ && name == "init"@ && descriptor == "()I"@ {
        Some(NativeMethod::Machine(MachineNative::DispatcherInit))
    } else if class == "sun/nio/fs/UnixNativeDispatcher"@ && name == "getcwd"@ && descriptor == "()[B"@ {
        Some(NativeMethod::Machine(MachineNative::DispatcherGetcwd))
    } else {
        None
    }
}

/// The native of `sun.misc` and `sun.nio` registered for `name` with `descriptor` of `class`, if any.
fn find_sun_misc_native(class: &str, name: &str, descriptor: &str) -> (r: Option<NativeMethod>)
    ensures
        r == sun_misc_natives(class@, name@, descriptor@),
{
    if same_text(class, "sun/misc/VM") && same_text(name, "initialize") && same_text(descriptor, "()V") {
        Some(NativeMethod::Machine(MachineNative::VmInitialize))
    } else if same_text(class, "sun/misc/Signal") && same_text(name, "findSignal") && same_text(descriptor, "(Ljava/lang/String;)I") {
        Some(NativeMethod::Machine(MachineNative::FindSignal))
    } else if same_text(class, "sun/misc/Signal") && same_text(name, "handle0") && same_text(descriptor, "(IJ)J") {
        Some(NativeMethod::Machine(MachineNative::Handle0))
    } else if same_text(class, "sun/misc/URLClassPath") && same_text(name, "getLookupCacheURLs") && same_text(descriptor, "(Ljava/lang/ClassLoader;)[Ljava/net/URL;") {
        Some(NativeMethod::Machine(MachineNative::LookupCacheUrls))
    } else if same_text(class, "sun/misc/Perf") && same_text(name, "createLong") && same_text(descriptor, "(Ljava/lang/String;IIJ)Ljava/nio/ByteBuffer;") {
        Some(NativeMethod::Machine(MachineNative::CreateLong))
    } else if same_text(class, "sun/nio/fs/UnixNativeDispatcher") && same_text(name, "init") && same_text(descriptor, "()I") {
        Some(NativeMethod::Machine(MachineNative::DispatcherInit))
    } else if same_text(class, "sun/nio/fs/UnixNativeDispatcher") && same_text(name, "getcwd") && same_text(descriptor, "()[B") {
        Some(NativeMethod::Machine(MachineNative::DispatcherGetcwd))
    } else {
        None
    }
}

/// The registrations of the natives of `sun.misc.Unsafe`, first part, in the order they are made.
pub open spec fn unsafe_first_natives(class: Seq<char>, name: Seq<char>, descriptor: Seq<char>) -> Option<NativeMethod> {
    if class == "sun/misc/Unsafe"@ && name == "arrayBaseOffset"@ && descriptor == "(Ljava/lang/Class;)I"@ {
        Some(NativeMethod::ArrayBaseOffset)
    } else if class == "sun/misc/Unsafe"@ && name == "arrayIndexScale"@ && descriptor == "(Ljava/lang/Class;)I"@ {
        Some(NativeMethod::ArrayIndexScale)
    } else if class == "sun/misc/Unsafe"@ && name == "addressSize"@ && descriptor == "()I"@ {
        Some(NativeMethod::AddressSize)
    } else if class == "sun/misc/Unsafe"@ && name == "objectFieldOffset"@ && descriptor == "(Ljava/lang/reflect/Field;)J"@ {
        Some(NativeMethod::Machine(MachineNative::ObjectFieldOffset))
    } else if class == "sun/misc/Unsafe"@ && name == "staticFieldOffset"@ && descriptor == "(Ljava/lang/reflect/Field;)J"@ {
        Some(NativeMethod::Machine(MachineNative::StaticFieldOffset))
    } else if class == "sun/misc/Unsafe"@ && name == "putObjectVolatile"@ && descriptor == "(Ljava/lang/Object;JLjava/lang/Object;)V"@ {
        Some(NativeMethod::PutObjectVolatile)
    } else if class == "sun/misc/Unsafe"@ && name == "getObjectVolatile"@ && descriptor == "(Ljava/lang/Object;J)Ljava/lang/Object;"@ {
        Some(NativeMethod::GetObjectVolatile)
    } else if class == "sun/misc/Unsafe"@ && name == "putIntVolatile"@ && descriptor == "(Ljava/lang/Object;JI)V"@ {
        Some(NativeMethod::PutIntVolatile)
    } else if class == "sun/misc/Unsafe"@ && name == "getIntVolatile"@ && descriptor == "(Ljava/lang/Object;J)I"@ {
        Some(NativeMethod::GetIntVolatile)
    } else if class == "sun/misc/Unsafe"@ && name == "putLongVolatile"@ && descriptor == "(Ljava/lang/Object;JJ)V"@ {
        Some(NativeMethod::PutLongVolatile)
    } else if class == "sun/misc/Unsafe"@ && name == "getLongVolatile"@ && descriptor == "(Ljava/lang/Object;J)J"@ {
        Some(NativeMethod::GetLongVolatile)
    } else if class == "sun/misc/Unsafe"@ && name == "staticFieldBase"@ && descriptor == "(Ljava/lang/reflect/Field;)Ljava/lang/Object;"@ {
        Some(NativeMethod::Machine(MachineNative::StaticFieldBase))
    } else if class == "sun/misc/Unsafe"@ && name == "compareAndSwapObject"@ && descriptor == "(Ljava/lang/Object;JLjava/lang/Object;Ljava/lang/Object;)Z"@ {
        Some(NativeMethod::CompareAndSwapObject)
    } else if class == "sun/misc/Unsafe"@ && name == "compareAndSwapInt"@ && descriptor == "(Ljava/lang/Object;JII)Z"@ {
        Some(NativeMethod::CompareAndSwapInt)
    } else if class == "sun/misc/Unsafe"@ && name == "compareAndSwapLong"@ && descriptor == "(Ljava/lang/Object;JJJ)Z"@ {
        Some(NativeMethod::CompareAndSwapLong)
    } else if class == "sun/misc/Unsafe"@ && name == "allocateMemory"@ && descriptor == "(J)J"@ {
        Some(NativeMethod::AllocateMemory)
    } else if class == "sun/misc/Unsafe"@ && name == "setMemory"@ && descriptor == "(Ljava/lang/Object;JJB)V"@ {
        Some(NativeMethod::SetMemory)
    } else if class == "sun/misc/Unsafe"@ && name == "copyMemory"@ && descriptor == "(Ljava/lang/Object;JLjava/lang/Object;JJ)V"@ {
        Some(NativeMethod::CopyMemory)
    } else if class == "sun/misc/Unsafe"@ && name == "freeMemory"@ && descriptor == "(J)V"@ {
        Some(NativeMethod::FreeMemory)
    } else if class == "sun/misc/Unsafe"@ && name == "pageSize"@ && descriptor == "()I"@ {
        Some(NativeMethod::PageSize)
    } else {
        None
    }
}

/// The native of `sun.misc.Unsafe`, first part registered for `name` with `descriptor` of `class`, if any.
fn find_unsafe_first_native(class: &str, name: &str, descriptor: &str) -> (r: Option<NativeMethod>)
    ensures
        r == unsafe_first_natives(class@, name@, descriptor@),
{
    if same_text(class, "sun/misc/Unsafe") && same_text(name, "arrayBaseOffset") && same_text(descriptor, "(Ljava/lang/Class;)I") {
        Some(NativeMethod::ArrayBaseOffset)
    } else if same_text(class, "sun/misc/Unsafe") && same_text(name, "arrayIndexScale") && same_text(descriptor, "(Ljava/lang/Class;)I") {
        Some(NativeMethod::ArrayIndexScale)
    } else if same_text(class, "sun/misc/Unsafe") && same_text(name, "addressSize") && same_text(descriptor, "()I") {
        Some(NativeMethod::AddressSize)
    } else if same_text(class, "sun/misc/Unsafe") && same_text(name, "objectFieldOffset") && same_text(descriptor, "(Ljava/lang/reflect/Field;)J") {
        Some(NativeMethod::Machine(MachineNative::ObjectFieldOffset))
    } else if same_text(class, "sun/misc/Unsafe") && same_text(name, "staticFieldOffset") && same_text(descriptor, "(Ljava/lang/reflect/Field;)J") {
        Some(NativeMethod::Machine(MachineNative::StaticFieldOffset))
    } else if same_text(class, "sun/misc/Unsafe") && same_text(name, "putObjectVolatile") && same_text(descriptor, "(Ljava/lang/Object;JLjava/lang/Object;)V") {
        Some(NativeMethod::PutObjectVolatile)
    } else if same_text(class, "sun/misc/Unsafe") && same_text(name, "getObjectVolatile") && same_text(descriptor, "(Ljava/lang/Object;J)Ljava/lang/Object;") {
        Some(NativeMethod::GetObjectVolatile)
    } else if same_text(class, "sun/misc/Unsafe") && same_text(name, "putIntVolatile") && same_text(descriptor, "(Ljava/lang/Object;JI)V") {
        Some(NativeMethod::PutIntVolatile)
    } else if same_text(class, "sun/misc/Unsafe") && same_text(name, "getIntVolatile") && same_text(descriptor, "(Ljava/lang/Object;J)I") {
        Some(NativeMethod::GetIntVolatile)
    } else if same_text(class, "sun/misc/Unsafe") && same_text(name, "putLongVolatile") && same_text(descriptor, "(Ljava/lang/Object;JJ)V") {
        Some(NativeMethod::PutLongVolatile)
    } else if same_text(class, "sun/misc/Unsafe") && same_text(name, "getLongVolatile") && same_text(descriptor, "(Ljava/lang/Object;J)J") {
        Some(NativeMethod::GetLongVolatile)
    } else if same_text(class, "sun/misc/Unsafe") && same_text(name, "staticFieldBase") && same_text(descriptor, "(Ljava/lang/reflect/Field;)Ljava/lang/Object;") {
        Some(NativeMethod::Machine(MachineNative::StaticFieldBase))
    } else if same_text(class, "sun/misc/Unsafe") && same_text(name, "compareAndSwapObject") && same_text(descriptor, "(Ljava/lang/Object;JLjava/lang/Object;Ljava/lang/Object;)Z") {
        Some(NativeMethod::CompareAndSwapObject)
    } else if same_text(class, "sun/misc/Unsafe") && same_text(name, "compareAndSwapInt") && same_text(descriptor, "(Ljava/lang/Object;JII)Z") {
        Some(NativeMethod::CompareAndSwapInt)
    } else if same_text(class, "sun/misc/Unsafe") && same_text(name, "compareAndSwapLong") && same_text(descriptor, "(Ljava/lang/Object;JJJ)Z") {
        Some(NativeMethod::CompareAndSwapLong)
    } else if same_text(class, "sun/misc/Unsafe") && same_text(name, "allocateMemory") && same_text(descriptor, "(J)J") {
        Some(NativeMethod::AllocateMemory)
    } else if same_text(class, "sun/misc/Unsafe") && same_text(name, "setMemory") && same_text(descriptor, "(Ljava/lang/Object;JJB)V") {
        Some(NativeMethod::SetMemory)
    } else if same_text(class, "sun/misc/Unsafe") && same_text(name, "copyMemory") && same_text(descriptor, "(Ljava/lang/Object;JLjava/lang/Object;JJ)V") {
        Some(NativeMethod::CopyMemory)
    } else if same_text(class, "sun/misc/Unsafe") && same_text(name, "freeMemory") && same_text(descriptor, "(J)V") {
        Some(NativeMethod::FreeMemory)
    } else if same_text(class, "sun/misc/Unsafe") && same_text(name, "pageSize") && same_text(descriptor, "()I") {
        Some(NativeMethod::PageSize)
    } else {
        None
    }
}

/// The registrations of the natives of `sun.misc.Unsafe`, second part, in the order they are made.
pub open spec fn unsafe_second_natives(class: Seq<char>, name: Seq<char>, descriptor: Seq<char>) -> Option<NativeMethod> {
    if class == "sun/misc/Unsafe"@ && name == "putLong"@ && descriptor == "(JJ)V"@ {
        Some(NativeMethod::PutLong)
    } else if class == "sun/misc/Unsafe"@ && name == "getLong"@ && descriptor == "(J)J"@ {
        Some(NativeMethod::GetLong)
    } else if class == "sun/misc/Unsafe"@ && name == "putInt"@ && descriptor == "(JI)V"@ {
        Some(NativeMethod::PutInt)
    } else if class == "sun/misc/Unsafe"@ && name == "getInt"@ && descriptor == "(J)I"@ {
        Some(NativeMethod::GetInt)
    } else if class == "sun/misc/Unsafe"@ && name == "getByte"@ && descriptor == "(J)B"@ {
        Some(NativeMethod::GetByte)
    } else if class == "sun/misc/Unsafe"@ && name == "putObject"@ && descriptor == "(Ljava/lang/Object;JLjava/lang/Object;)V"@ {
        Some(NativeMethod::PutObjectVolatile)
    } else if class == "sun/misc/Unsafe"@ && name == "getObject"@ && descriptor == "(Ljava/lang/Object;J)Ljava/lang/Object;"@ {
        Some(NativeMethod::GetObjectVolatile)
    } else if class == "sun/misc/Unsafe"@ && name == "putInt"@ && descriptor == "(Ljava/lang/Object;JI)V"@ {
        Some(NativeMethod::PutIntVolatile)
    } else if class == "sun/misc/Unsafe"@ && name == "getInt"@ && descriptor == "(Ljava/lang/Object;J)I"@ {
        Some(NativeMethod::GetIntVolatile)
    } else if class == "sun/misc/Unsafe"@ && name == "putLong"@ && descriptor == "(Ljava/lang/Object;JJ)V"@ {
        Some(NativeMethod::PutLongVolatile)
    } else if class == "sun/misc/Unsafe"@ && name == "getLong"@ && descriptor == "(Ljava/lang/Object;J)J"@ {
        Some(NativeMethod::GetLongVolatile)
    } else if class == "sun/misc/Unsafe"@ && name == "putOrderedObject"@ && descriptor == "(Ljava/lang/Object;JLjava/lang/Object;)V"@ {
        Some(NativeMethod::PutOrderedObject)
    } else if class == "sun/misc/Unsafe"@ && name == "defineClass"@ && descriptor == "(Ljava/lang/String;[BIILjava/lang/ClassLoader;Ljava/security/ProtectionDomain;)Ljava/lang/Class;"@ {
        Some(NativeMethod::Machine(MachineNative::DefineClass))
    } else if class == "sun/misc/Unsafe"@ && name == "defineAnonymousClass"@ && descriptor == "(Ljava/lang/Class;[B[Ljava/lang/Object;)Ljava/lang/Class;"@ {
        Some(NativeMethod::Machine(MachineNative::DefineAnonClass))
    } else if class == "sun/misc/Unsafe"@ && name == "allocateInstance"@ && descriptor == "(Ljava/lang/Class;)Ljava/lang/Object;"@ {
        Some(NativeMethod::Machine(MachineNative::AllocateInstance))
    } else if class == "sun/misc/Unsafe"@ && name == "shouldBeInitialized"@ && descriptor == "(Ljava/lang/Class;)Z"@ {
        Some(NativeMethod::Machine(MachineNative::ShouldBeInitialized))
    } else if class == "sun/misc/Unsafe"@ && name == "ensureClassInitialized"@ && descriptor == "(Ljava/lang/Class;)V"@ {
        Some(NativeMethod::Machine(MachineNative::EnsureInitialized))
    } else if class == "sun/misc/Unsafe"@ && name == "park"@ && descriptor == "(ZJ)V"@ {
        Some(NativeMethod::Machine(MachineNative::Park))
    } else if class == "sun/misc/Unsafe"@ && name == "unpark"@ && descriptor == "(Ljava/lang/Object;)V"@ {
        Some(NativeMethod::Machine(MachineNative::Unpark))
    } else {
        None
    }
}

/// The native of `sun.misc.Unsafe`, second part registered for `name` with `descriptor` of `class`, if any.
fn find_unsafe_second_native(class: &str, name: &str, descriptor: &str) -> (r: Option<NativeMethod>)
    ensures
        r == unsafe_second_natives(class@, name@, descriptor@),
{
    if same_text(class, "sun/misc/Unsafe") && same_text(name, "putLong") && same_text(descriptor, "(JJ)V") {
        Some(NativeMethod::PutLong)
    } else if same_text(class, "sun/misc/Unsafe") && same_text(name, "getLong") && same_text(descriptor, "(J)J") {
        Some(NativeMethod::GetLong)
    } else if same_text(class, "sun/misc/Unsafe") && same_text(name, "putInt") && same_text(descriptor, "(JI)V") {
        Some(NativeMethod::PutInt)
    } else if same_text(class, "sun/misc/Unsafe") && same_text(name, "getInt") && same_text(descriptor, "(J)I") {
        Some(NativeMethod::GetInt)
    } else if same_text(class, "sun/misc/Unsafe") && same_text(name, "getByte") && same_text(descriptor, "(J)B") {
        Some(NativeMethod::GetByte)
    } else if same_text(class, "sun/misc/Unsafe") && same_text(name, "putObject") && same_text(descriptor, "(Ljava/lang/Object;JLjava/lang/Object;)V") {
        Some(NativeMethod::PutObjectVolatile)
    } else if same_text(class, "sun/misc/Unsafe") && same_text(name, "getObject") && same_text(descriptor, "(Ljava/lang/Object;J)Ljava/lang/Object;") {
        Some(NativeMethod::GetObjectVolatile)
    } else if same_text(class, "sun/misc/Unsafe") && same_text(name, "putInt") && same_text(descriptor, "(Ljava/lang/Object;JI)V") {
        Some(NativeMethod::PutIntVolatile)
    } else if same_text(class, "sun/misc/Unsafe") && same_text(name, "getInt") && same_text(descriptor, "(Ljava/lang/Object;J)I") {
        Some(NativeMethod::GetIntVolatile)
    } else if same_text(class, "sun/misc/Unsafe") && same_text(name, "putLong") && same_text(descriptor, "(Ljava/lang/Object;JJ)V") {
        Some(NativeMethod::PutLongVolatile)
    } else if same_text(class, "sun/misc/Unsafe") && same_text(name, "getLong") && same_text(descriptor, "(Ljava/lang/Object;J)J") {
        Some(NativeMethod::GetLongVolatile)
    } else if same_text(class, "sun/misc/Unsafe") && same_text(name, "putOrderedObject") && same_text(descriptor, "(Ljava/lang/Object;JLjava/lang/Object;)V") {
        Some(NativeMethod::PutOrderedObject)
    } else if same_text(class, "sun/misc/Unsafe") && same_text(name, "defineClass") && same_text(descriptor, "(Ljava/lang/String;[BIILjava/lang/ClassLoader;Ljava/security/ProtectionDomain;)Ljava/lang/Class;") {
        Some(NativeMethod::Machine(MachineNative::DefineClass))
    } else if same_text(class, "sun/misc/Unsafe") && same_text(name, "defineAnonymousClass") && same_text(descriptor, "(Ljava/lang/Class;[B[Ljava/lang/Object;)Ljava/lang/Class;") {
        Some(NativeMethod::Machine(MachineNative::DefineAnonClass))
    } else if same_text(class, "sun/misc/Unsafe") && same_text(name, "allocateInstance") && same_text(descriptor, "(Ljava/lang/Class;)Ljava/lang/Object;") {
        Some(NativeMethod::Machine(MachineNative::AllocateInstance))
    } else if same_text(class, "sun/misc/Unsafe") && same_text(name, "shouldBeInitialized") && same_text(descriptor, "(Ljava/lang/Class;)Z") {
        Some(NativeMethod::Machine(MachineNative::ShouldBeInitialized))
    } else if same_text(class, "sun/misc/Unsafe") && same_text(name, "ensureClassInitialized") && same_text(descriptor, "(Ljava/lang/Class;)V") {
        Some(NativeMethod::Machine(MachineNative::EnsureInitialized))
    } else if same_text(class, "sun/misc/Unsafe") && same_text(name, "park") && same_text(descriptor, "(ZJ)V") {
        Some(NativeMethod::Machine(MachineNative::Park))
    } else if same_text(class, "sun/misc/Unsafe") && same_text(name, "unpark") && same_text(descriptor, "(Ljava/lang/Object;)V") {
        Some(NativeMethod::Machine(MachineNative::Unpark))
    } else {
        None
    }
}

/// The registrations of the natives of `sun.reflect`, in the order they are made.
pub open spec fn reflect_natives(class: Seq<char>, name: Seq<char>, descriptor: Seq<char>) -> Option<NativeMethod> {
    if class == "sun/reflect/Reflection"@ && name == "getCallerClass"@ && descriptor == "()Ljava/lang/Class;"@ {
        Some(NativeMethod::Machine(MachineNative::GetCallerClass))
    } else if class == "sun/reflect/Reflection"@ && name == "getClassAccessFlags"@ && descriptor == "(Ljava/lang/Class;)I"@ {
        Some(NativeMethod::Machine(MachineNative::GetClassAccessFlags))
    } else if class == "sun/reflect/NativeConstructorAccessorImpl"@ && name == "newInstance0"@ && descriptor == "(Ljava/lang/reflect/Constructor;[Ljava/lang/Object;)Ljava/lang/Object;"@ {
        Some(NativeMethod::Machine(MachineNative::NewInstance0))
    } else if class == "sun/reflect/NativeMethodAccessorImpl"@ && name == "invoke0"@ && descriptor == "(Ljava/lang/reflect/Method;Ljava/lang/Object;[Ljava/lang/Object;)Ljava/lang/Object;"@ {
        Some(NativeMethod::Machine(MachineNative::Invoke0))
    } else {
        None
    }
}

/// The native of `sun.reflect` registered for `name` with `descriptor` of `class`, if any.
fn find_reflect_native(class: &str, name: &str, descriptor: &str) -> (r: Option<NativeMethod>)
    ensures
        r == reflect_natives(class@, name@, descriptor@),
{
    if same_text(class, "sun/reflect/Reflection") && same_text(name, "getCallerClass") && same_text(descriptor, "()Ljava/lang/Class;") {
        Some(NativeMethod::Machine(MachineNative::GetCallerClass))
    } else if same_text(class, "sun/reflect/Reflection") && same_text(name, "getClassAccessFlags") && same_text(descriptor, "(Ljava/lang/Class;)I") {
        Some(NativeMethod::Machine(MachineNative::GetClassAccessFlags))
    } else if same_text(class, "sun/reflect/NativeConstructorAccessorImpl") && same_text(name, "newInstance0") && same_text(descriptor, "(Ljava/lang/reflect/Constructor;[Ljava/lang/Object;)Ljava/lang/Object;") {
        Some(NativeMethod::Machine(MachineNative::NewInstance0))
    } else if same_text(class, "sun/reflect/NativeMethodAccessorImpl") && same_text(name, "invoke0") && same_text(descriptor, "(Ljava/lang/reflect/Method;Ljava/lang/Object;[Ljava/lang/Object;)Ljava/lang/Object;") {
        Some(NativeMethod::Machine(MachineNative::Invoke0))
    } else {
        None
    }
}

/// The native method registered for the method `name` with the descriptor `descriptor`
/// of the class `class`, if there is one: the registrations in the order the machine
/// makes them, group by group, the first that matches winning.
pub open spec fn native_table(class: Seq<char>, name: Seq<char>, descriptor: Seq<char>) -> Option<NativeMethod> {
    if io_natives(class, name, descriptor) is Some {
        io_natives(class, name, descriptor)
    } else if lang_natives(class, name, descriptor) is Some {
        lang_natives(class, name, descriptor)
    } else if class_natives(class, name, descriptor) is Some {
        class_natives(class, name, descriptor)
    } else if class_loader_natives(class, name, descriptor) is Some {
        class_loader_natives(class, name, descriptor)
    } else if number_natives(class, name, descriptor) is Some {
        number_natives(class, name, descriptor)
    } else if object_natives(class, name, descriptor) is Some {
        object_natives(class, name, descriptor)
    } else if system_natives(class, name, descriptor) is Some {
        system_natives(class, name, descriptor)
    } else if method_handle_natives(class, name, descriptor) is Some {
        method_handle_natives(class, name, descriptor)
    } else if security_natives(class, name, descriptor) is Some {
        security_natives(class, name, descriptor)
    } else if sun_misc_natives(class, name, descriptor) is Some {
        sun_misc_natives(class, name, descriptor)
    } else if unsafe_first_natives(class, name, descriptor) is Some {
        unsafe_first_natives(class, name, descriptor)
    } else if unsafe_second_natives(class, name, descriptor) is Some {
        unsafe_second_natives(class, name, descriptor)
    } else if reflect_natives(class, name, descriptor) is Some {
        reflect_natives(class, name, descriptor)
    } else {
        None
    }
}

/// The native method registered for the method `name` with the descriptor `descriptor`
/// of the class `class`, if there is one.
pub fn find_native(class: &str, name: &str, descriptor: &str) -> (r: Option<NativeMethod>)
    ensures
        r == native_table(class@, name@, descriptor@),
{
    let found = find_io_native(class, name, descriptor);
    if found.is_some() {
        return found;
    }
    let found = find_lang_native(class, name, descriptor);
    if found.is_some() {
        return found;
    }
    let found = find_class_native(class, name, descriptor);
    if found.is_some() {
        return found;
    }
    let found = find_class_loader_native(class, name, descriptor);
    if found.is_some() {
        return found;
    }
    let found = find_number_native(class, name, descriptor);
    if found.is_some() {
        return found;
    }
    let found = find_object_native(class, name, descriptor);
    if found.is_some() {
        return found;
    }
    let found = find_system_native(class, name, descriptor);
    if found.is_some() {
        return found;
    }
    let found = find_method_handle_native(class, name, descriptor);
    if found.is_some() {
        return found;
    }
    let found = find_security_native(class, name, descriptor);
    if found.is_some() {
        return found;
    }
    let found = find_sun_misc_native(class, name, descriptor);
    if found.is_some() {
        return found;
    }
    let found = find_unsafe_first_native(class, name, descriptor);
    if found.is_some() {
        return found;
    }
    let found = find_unsafe_second_native(class, name, descriptor);
    if found.is_some() {
        return found;
    }
    let found = find_reflect_native(class, name, descriptor);
    if found.is_some() {
        return found;
    }
    None
}

/// True when the native method `m` can run here on these arguments without panicking
/// (see the `delegate_*` functions); never for one that the machine carries out.
pub open spec fn native_requires(
    m: NativeMethod,
    oh: Map<RefId, ReferenceValue>,
    om: Unsafe,
    this: Option<RefId>,
    args: Seq<Value>,
    class_statics: Option<RefId>,
) -> bool {
    match m {
        NativeMethod::FloatToRawBits => true,
        NativeMethod::DoubleToRawBits => true,
        NativeMethod::LongBitsToDouble => true,
        NativeMethod::Arraycopy => {
            &&& (arraycopy_copies(oh, args) ==> arraycopy_in_bounds(oh, args))
        },
        NativeMethod::ArrayBaseOffset => true,
        NativeMethod::ArrayIndexScale => true,
        NativeMethod::AddressSize => true,
        NativeMethod::PutObjectVolatile => {
            &&& (put_in_bounds(oh, args, 0))
        },
        NativeMethod::GetObjectVolatile => {
            &&& (access_in_bounds(oh, args, class_statics))
        },
        NativeMethod::PutIntVolatile => {
            &&& (put_in_bounds(oh, args, 1))
        },
        NativeMethod::GetIntVolatile => {
            &&& (access_in_bounds(oh, args, class_statics))
        },
        NativeMethod::PutLongVolatile => {
            &&& (put_in_bounds(oh, args, 2))
        },
        NativeMethod::GetLongVolatile => {
            &&& (access_in_bounds(oh, args, class_statics))
        },
        NativeMethod::CompareAndSwapObject => {
            &&& (cas_in_bounds(oh, cas_args(args, 0, 3, 4), 0))
        },
        NativeMethod::CompareAndSwapInt => {
            &&& (cas_in_bounds(oh, cas_args(args, 1, 3, 4), 1))
        },
        NativeMethod::CompareAndSwapLong => {
            &&& (cas_in_bounds(oh, cas_args(args, 2, 3, 5), 2))
        },
        NativeMethod::AllocateMemory => {
            &&& (match arg(args, 0) {
                    Some(Value::Long(n)) => om.chunk().used() + (n as usize) <= usize::MAX,
                    _ => true,
                })
        },
        NativeMethod::SetMemory => {
            &&& (match set_memory_args(args) {
                    Some((o, offset, n, _)) => o.0 == 0 && om.valid_range(offset, (n as usize) as nat),
                    None => true,
                })
        },
        NativeMethod::CopyMemory => {
            &&& (copy_memory_in_bounds(oh, om, args))
        },
        NativeMethod::FreeMemory => true,
        NativeMethod::PageSize => true,
        NativeMethod::PutLong => {
            &&& (match (arg(args, 0), arg(args, 2)) {
                    (Some(Value::Long(ptr)), Some(Value::Long(_))) => om.valid_range(ptr, 8),
                    _ => true,
                })
        },
        NativeMethod::GetLong => {
            &&& (match arg(args, 0) {
                    Some(Value::Long(ptr)) => om.valid_range(ptr, 8),
                    _ => true,
                })
        },
        NativeMethod::PutInt => {
            &&& (match (arg(args, 0), arg(args, 2)) {
                    (Some(Value::Long(ptr)), Some(Value::Integer(_))) => om.valid_range(ptr, 4),
                    _ => true,
                })
        },
        NativeMethod::GetInt => {
            &&& (match arg(args, 0) {
                    Some(Value::Long(ptr)) => om.valid_range(ptr, 4),
                    _ => true,
                })
        },
        NativeMethod::GetByte => {
            &&& (match arg(args, 0) {
                    Some(Value::Long(ptr)) => om.valid_range(ptr, 1),
                    _ => true,
                })
        },
        NativeMethod::PutOrderedObject => {
            &&& (arg(args, 3) is Some ==> access_in_bounds(oh, args, class_statics))
        },
        NativeMethod::IsPrimitive => match this {
            Some(id) => oh.contains_key(id) ==> class_name_readable(oh, oh[id]),
            None => true,
        },
        NativeMethod::Machine(_) => false,
    }
}

/// True when `r`, with the heap going from `oh` to `nh` and the native memory from `om`
/// to `nm`, is what the native method `m` does (see the `delegate_*` functions).
pub open spec fn native_ensures(
    m: NativeMethod,
    oh: Map<RefId, ReferenceValue>,
    nh: Map<RefId, ReferenceValue>,
    om: Unsafe,
    nm: Unsafe,
    this: Option<RefId>,
    args: Seq<Value>,
    class_statics: Option<RefId>,
    r: NativeResult,
) -> bool {
    match m {
        NativeMethod::FloatToRawBits => {
            &&& (match arg(args, 0) {
                    Some(Value::Float(bits)) => r == Ok::<Option<Value>, VmError>(Some(Value::Integer(bits as i32))),
                    _ => r matches Err(VmError::ValidationError(_)),
                })
            &&& (nh == oh)
            &&& (nm == om)
        },
        NativeMethod::DoubleToRawBits => {
            &&& (match arg(args, 0) {
                    Some(Value::Double(bits)) => r == Ok::<Option<Value>, VmError>(Some(Value::Long(bits as i64))),
                    _ => r matches Err(VmError::ValidationError(_)),
                })
            &&& (nh == oh)
            &&& (nm == om)
        },
        NativeMethod::LongBitsToDouble => {
            &&& (match arg(args, 0) {
                    Some(Value::Long(bits)) => r == Ok::<Option<Value>, VmError>(Some(Value::Double(bits as u64))),
                    _ => r matches Err(VmError::ValidationError(_)),
                })
            &&& (nh == oh)
            &&& (nm == om)
        },
        NativeMethod::Arraycopy => {
            &&& (arraycopy_copies(oh, args) ==> {
                    let (s, sp, d, dp, n) = arraycopy_args(args).unwrap();
                    &&& r == Ok::<Option<Value>, VmError>(None)
                    &&& nh.dom() == oh.dom()
                    &&& ReferenceValue::with_components(
                        &oh[d],
                        &nh[d],
                        copied(oh[d].components(), dp as int, oh[s].components(), sp as int, n as int),
                    )
                    &&& forall|other: RefId| other != d ==> #[trigger] nh.index(other) == oh.index(other)
                })
            &&& (!arraycopy_copies(oh, args) ==> (r matches Err(VmError::ValidationError(_))) && nh
                    == oh)
            &&& (nm == om)
        },
        NativeMethod::ArrayBaseOffset => {
            &&& (match arg(args, 0) {
                    Some(Value::Reference(_)) => r == Ok::<Option<Value>, VmError>(Some(Value::Integer(16))),
                    _ => r matches Err(VmError::ValidationError(_)),
                })
            &&& (nh == oh)
            &&& (nm == om)
        },
        NativeMethod::ArrayIndexScale => {
            &&& (match arg(args, 0) {
                    Some(Value::Reference(_)) => r == Ok::<Option<Value>, VmError>(Some(Value::Integer(1))),
                    _ => r matches Err(VmError::ValidationError(_)),
                })
            &&& (nh == oh)
            &&& (nm == om)
        },
        NativeMethod::AddressSize => {
            &&& (r == Ok::<Option<Value>, VmError>(Some(Value::Integer(8))))
            &&& (nh == oh)
            &&& (nm == om)
        },
        NativeMethod::PutObjectVolatile => {
            &&& (put_done(oh, nh, args, 0, r))
            &&& (nm == om)
        },
        NativeMethod::GetObjectVolatile => {
            &&& (match loaded(oh, args, class_statics) {
                    Some(v) => r == Ok::<Option<Value>, VmError>(Some(v)),
                    None => r matches Err(VmError::ValidationError(_)),
                })
            &&& (nh == oh)
            &&& (nm == om)
        },
        NativeMethod::PutIntVolatile => {
            &&& (put_done(oh, nh, args, 1, r))
            &&& (nm == om)
        },
        NativeMethod::GetIntVolatile => {
            &&& (match loaded(oh, args, class_statics) {
                    Some(v) => r == Ok::<Option<Value>, VmError>(Some(v)),
                    None => r matches Err(VmError::ValidationError(_)),
                })
            &&& (nh == oh)
            &&& (nm == om)
        },
        NativeMethod::PutLongVolatile => {
            &&& (put_done(oh, nh, args, 2, r))
            &&& (nm == om)
        },
        NativeMethod::GetLongVolatile => {
            &&& (match loaded(oh, args, class_statics) {
                    Some(v) => r == Ok::<Option<Value>, VmError>(Some(v)),
                    None => r matches Err(VmError::ValidationError(_)),
                })
            &&& (nh == oh)
            &&& (nm == om)
        },
        NativeMethod::CompareAndSwapObject => {
            &&& (cas_done(
                    oh,
                    nh,
                    cas_args(args, 0, 3, 4),
                    match cas_args(args, 0, 3, 4) {
                        Some((o, _, _, _)) => !oh.contains_key(o) || oh[o].spec_id().0 == 0,
                        None => false,
                    },
                    r,
                ))
            &&& (nm == om)
        },
        NativeMethod::CompareAndSwapInt => {
            &&& (cas_done(
                    oh,
                    nh,
                    cas_args(args, 1, 3, 4),
                    match cas_args(args, 1, 3, 4) {
                        Some((o, _, _, _)) => !oh.contains_key(o),
                        None => false,
                    },
                    r,
                ))
            &&& (nm == om)
        },
        NativeMethod::CompareAndSwapLong => {
            &&& (cas_done(
                    oh,
                    nh,
                    cas_args(args, 2, 3, 5),
                    match cas_args(args, 2, 3, 5) {
                        Some((o, _, _, _)) => !oh.contains_key(o),
                        None => false,
                    },
                    r,
                ))
            &&& (nm == om)
        },
        NativeMethod::AllocateMemory => {
            &&& (match arg(args, 0) {
                    Some(Value::Long(n)) => {
                        let amount = n as usize;
                        &&& nm.chunk().bytes() == om.chunk().bytes()
                        &&& nm.chunk().start() == om.chunk().start()
                        &&& nm.chunk().capacity() == om.chunk().capacity()
                        &&& if om.chunk().used() + amount <= om.chunk().capacity() {
                            &&& r matches Ok(Some(Value::Long(p))) && p == om.chunk().start() + om.chunk().used()
                            &&& nm.chunk().used() == om.chunk().used() + aligned_size(amount as int)
                        } else {
                            &&& r == Ok::<Option<Value>, VmError>(Some(Value::Long(-1i64)))
                            &&& nm.chunk().used() == om.chunk().used()
                        }
                    },
                    _ => (r matches Err(VmError::ValidationError(_))) && nm == om,
                })
            &&& (nh == oh)
        },
        NativeMethod::SetMemory => {
            &&& (match set_memory_args(args) {
                    Some((_, offset, n, v)) => r == Ok::<Option<Value>, VmError>(None) && Unsafe::written(
                        &om,
                        &nm,
                        offset as int,
                        Seq::new((n as usize) as nat, |i: int| v as u8),
                    ),
                    None => (r matches Err(VmError::ValidationError(_))) && nm == om,
                })
            &&& (nh == oh)
        },
        NativeMethod::CopyMemory => {
            &&& (match copy_memory_args(args) {
                    Some((o1, off1, o2, off2, n)) => if o1.0 == 0 && o2.0 == 0 {
                        &&& r == Ok::<Option<Value>, VmError>(None)
                        &&& Unsafe::written(
                            &om,
                            &nm,
                            off2 as int,
                            om.spec_bytes_at(off1 as int, (n as usize) as nat),
                        )
                        &&& nh == oh
                    } else if oh.contains_key(o2) && oh[o2].spec_is_array() {
                        &&& r == Ok::<Option<Value>, VmError>(None)
                        &&& nm == om
                        &&& nh.dom() == oh.dom()
                        &&& ReferenceValue::with_components(
                            &oh[o2],
                            &nh[o2],
                            bytes_written(
                                oh[o2].components(),
                                (off2 as usize) - ARRAY_BASE_OFFSET,
                                om.spec_bytes_at(off1 as int, (n as usize) as nat),
                                (n as usize) as int,
                            ),
                        )
                        &&& forall|other: RefId| other != o2 ==> #[trigger] nh.index(other) == oh.index(
                            other,
                        )
                    } else {
                        &&& r matches Err(VmError::ValidationError(_))
                        &&& nm == om
                        &&& nh == oh
                    },
                    None => {
                        &&& r matches Err(VmError::ValidationError(_))
                        &&& nm == om
                        &&& nh == oh
                    },
                })
        },
        NativeMethod::FreeMemory => {
            &&& (nm == om)
            &&& (match arg(args, 0) {
                    Some(Value::Long(_)) => r == Ok::<Option<Value>, VmError>(None),
                    _ => r matches Err(VmError::ValidationError(_)),
                })
            &&& (nh == oh)
        },
        NativeMethod::PageSize => {
            &&& (r == Ok::<Option<Value>, VmError>(Some(Value::Integer(4096))))
            &&& (nh == oh)
            &&& (nm == om)
        },
        NativeMethod::PutLong => {
            &&& (match (arg(args, 0), arg(args, 2)) {
                    (Some(Value::Long(ptr)), Some(Value::Long(value))) => r == Ok::<Option<Value>, VmError>(None)
                        && Unsafe::written(&om, &nm, ptr as int, le_bytes(unsigned_part(value as int, 8), 8)),
                    _ => (r matches Err(VmError::ValidationError(_))) && nm == om,
                })
            &&& (nh == oh)
        },
        NativeMethod::GetLong => {
            &&& (match arg(args, 0) {
                    Some(Value::Long(ptr)) => r matches Ok(Some(Value::Long(v))) && v == as_signed(
                        le_value(om.spec_bytes_at(ptr as int, 8)),
                        8,
                    ),
                    _ => r matches Err(VmError::ValidationError(_)),
                })
            &&& (nh == oh)
            &&& (nm == om)
        },
        NativeMethod::PutInt => {
            &&& (match (arg(args, 0), arg(args, 2)) {
                    (Some(Value::Long(ptr)), Some(Value::Integer(value))) => r == Ok::<Option<Value>, VmError>(None)
                        && Unsafe::written(&om, &nm, ptr as int, le_bytes(unsigned_part(value as int, 4), 4)),
                    _ => (r matches Err(VmError::ValidationError(_))) && nm == om,
                })
            &&& (nh == oh)
        },
        NativeMethod::GetInt => {
            &&& (match arg(args, 0) {
                    Some(Value::Long(ptr)) => r matches Ok(Some(Value::Integer(v))) && v == as_signed(
                        le_value(om.spec_bytes_at(ptr as int, 4)),
                        4,
                    ),
                    _ => r matches Err(VmError::ValidationError(_)),
                })
            &&& (nh == oh)
            &&& (nm == om)
        },
        NativeMethod::GetByte => {
            &&& (match arg(args, 0) {
                    Some(Value::Long(ptr)) => r matches Ok(Some(Value::Integer(v))) && v == as_signed(
                        le_value(om.spec_bytes_at(ptr as int, 1)),
                        1,
                    ),
                    _ => r matches Err(VmError::ValidationError(_)),
                })
            &&& (nh == oh)
            &&& (nm == om)
        },
        NativeMethod::PutOrderedObject => {
            &&& (put_ordered_done(oh, nh, args, class_statics, r))
            &&& (nm == om)
        },
        NativeMethod::IsPrimitive => {
            &&& nh == oh
            &&& nm == om
            &&& match this {
                Some(id) if oh.contains_key(id) => match string_chars(oh, oh[id].components()[CLASS_NAME_INDEX as int]) {
                    Some(chars) => match array_of(oh, chars) {
                        Some(content) => match java_cesu8_text(char_array_bytes(content)) {
                            Some(t) => r == Ok::<Option<Value>, VmError>(
                                Some(Value::Integer(if is_primitive_name(dots_to_slashes(t)) { 1 } else { 0 })),
                            ),
                            None => r matches Err(VmError::CESU8Error),
                        },
                        None => r matches Err(VmError::ValidationError(_)),
                    },
                    None => r matches Err(VmError::ValidationError(_)),
                },
                _ => r matches Err(VmError::ValidationError(_)),
            }
        },
        NativeMethod::Machine(_) => nh == oh && nm == om,
    }
}

/// Runs the native method `m` on the call's arguments `args`, for the object `this`
/// (none for a static method). For a read or ordered write at a class object,
/// `class_statics` is the static object of the class it stands for.
pub fn invoke_native(
    m: NativeMethod,
    heap: &mut Heap,
    memory: &mut Unsafe,
    this: Option<RefId>,
    args: &Vec<Value>,
    class_statics: Option<RefId>,
) -> (r: NativeResult)
    requires
        old(heap).wf(),
        old(memory).wf(),
        native_requires(m, old(heap)@, *old(memory), this, args@, class_statics),
    ensures
        final(heap).wf(),
        native_ensures(m, old(heap)@, final(heap)@, *old(memory), *final(memory), this, args@, class_statics, r),
{
    match m {
        NativeMethod::FloatToRawBits => delegate_float_to_raw_bits(args),
        NativeMethod::DoubleToRawBits => delegate_double_to_raw_bits(args),
        NativeMethod::LongBitsToDouble => delegate_long_bits_to_double(args),
        NativeMethod::Arraycopy => delegate_arraycopy(heap, args),
        NativeMethod::IsPrimitive => {
            let object = match this {
                Some(id) => match heap.resolve_object_by_id(id) {
                    Ok(o) => Some(o),
                    Err(_) => None,
                },
                None => None,
            };
            delegate_is_primitive(heap, object)
        },
        NativeMethod::ArrayBaseOffset => delegate_array_base_offset(args),
        NativeMethod::ArrayIndexScale => delegate_array_index_scale(args),
        NativeMethod::AddressSize => delegate_address_size(),
        NativeMethod::PutObjectVolatile => delegate_put_object_volatile(heap, args),
        NativeMethod::GetObjectVolatile => delegate_get_object_volatile(heap, args, class_statics),
        NativeMethod::PutIntVolatile => delegate_put_int_volatile(heap, args),
        NativeMethod::GetIntVolatile => delegate_get_int_volatile(heap, args, class_statics),
        NativeMethod::PutLongVolatile => delegate_put_long_volatile(heap, args),
        NativeMethod::GetLongVolatile => delegate_get_long_volatile(heap, args, class_statics),
        NativeMethod::CompareAndSwapObject => delegate_compare_and_swap_object(heap, args),
        NativeMethod::CompareAndSwapInt => delegate_compare_and_swap_int(heap, args),
        NativeMethod::CompareAndSwapLong => delegate_compare_and_swap_long(heap, args),
        NativeMethod::AllocateMemory => delegate_allocate_memory(memory, args),
        NativeMethod::SetMemory => delegate_set_memory(memory, args),
        NativeMethod::CopyMemory => delegate_copy_memory(heap, memory, args),
        NativeMethod::FreeMemory => delegate_free_memory(memory, args),
        NativeMethod::PageSize => delegate_page_size(),
        NativeMethod::PutLong => delegate_put_long(memory, args),
        NativeMethod::GetLong => delegate_get_long(memory, args),
        NativeMethod::PutInt => delegate_put_int(memory, args),
        NativeMethod::GetInt => delegate_get_int(memory, args),
        NativeMethod::GetByte => delegate_get_byte(memory, args),
        NativeMethod::PutOrderedObject => delegate_put_ordered_object(heap, args, class_statics),
        NativeMethod::Machine(_) => {
            proof {
                assert(false);
            }
            Ok(None)
        },
    }
}

/// The number of arguments of a call, where a `long` or `double` takes two slots of
/// which the second holds `Dummy`.
pub open spec fn non_dummy_count(args: Seq<Value>) -> nat
    decreases args.len(),
{
    if args.len() == 0 {
        0
    } else {
        non_dummy_count(args.drop_last()) + if args.last() == Value::Dummy {
            0nat
        } else {
            1nat
        }
    }
}

/// The number of arguments of a call (see [`non_dummy_count`]).
pub fn count_arguments(args: &Vec<Value>) -> (r: usize)
    ensures
        r == non_dummy_count(args@),
{
    let mut count: usize = 0;
    let mut i: usize = 0;
    while i < args.len()
        invariant
            i <= args@.len(),
            count <= i,
            count == non_dummy_count(args@.take(i as int)),
        decreases args@.len() - i,
    {
        assert(args@.take(i + 1).drop_last() =~= args@.take(i as int));
        if args[i] != Value::Dummy {
            count = count + 1;
        }
        i = i + 1;
    }
    assert(args@.take(args@.len() as int) =~= args@);
    count
}

/// What a call of a registered native method comes to: the result of one that ran here,
/// or the native method that the machine is to carry out.
#[derive(Debug, PartialEq)]
pub enum NativeCall {
    Done(NativeResult),
    Machine(MachineNative),
}

/// Runs the native method registered for `method` of the class `class_name`, if there
/// is one: none when there is not. A call whose number of arguments differs from what
/// the method's descriptor declares is refused with a validation error, unless the
/// class declares the method with a polymorphic signature (`polymorphic`). A native
/// method that needs the machine is handed back to it.
pub fn invoke_registered(
    class_name: &str,
    method: &MethodInfo,
    polymorphic: bool,
    heap: &mut Heap,
    memory: &mut Unsafe,
    this: Option<RefId>,
    args: &Vec<Value>,
    class_statics: Option<RefId>,
) -> (r: Option<NativeCall>)
    requires
        old(heap).wf(),
        old(memory).wf(),
        match native_table(class_name@, method.name@, method.descriptor.spec_raw()) {
            Some(m) => (polymorphic || method.descriptor.args_model().len() == non_dummy_count(args@))
                && !(m is Machine) ==> native_requires(m, old(heap)@, *old(memory), this, args@, class_statics),
            None => true,
        },
    ensures
        final(heap).wf(),
        match native_table(class_name@, method.name@, method.descriptor.spec_raw()) {
            Some(m) => if polymorphic || method.descriptor.args_model().len() == non_dummy_count(args@) {
                match m {
                    NativeMethod::Machine(k) => r == Some(NativeCall::Machine(k)) && final(heap)@ == old(heap)@
                        && *final(memory) == *old(memory),
                    _ => r matches Some(NativeCall::Done(res)) && native_ensures(
                        m,
                        old(heap)@,
                        final(heap)@,
                        *old(memory),
                        *final(memory),
                        this,
                        args@,
                        class_statics,
                        res,
                    ),
                }
            } else {
                (r matches Some(NativeCall::Done(Err(VmError::ValidationError(_))))) && final(heap)@ == old(heap)@
                    && *final(memory) == *old(memory)
            },
            None => r is None && final(heap)@ == old(heap)@ && *final(memory) == *old(memory),
        },
{
    match find_native(class_name, method.name.as_str(), method.descriptor.as_str()) {
        None => None,
        Some(m) => {
            let needed = method.get_args_count();
            let provided = count_arguments(args);
            if needed == provided || polymorphic {
                match m {
                    NativeMethod::Machine(k) => Some(NativeCall::Machine(k)),
                    _ => Some(NativeCall::Done(invoke_native(m, heap, memory, this, args, class_statics))),
                }
            } else {
                Some(
                    NativeCall::Done(
                        Err(VmError::ValidationError("the number of arguments does not fit the method".to_string())),
                    ),
                )
            }
        },
    }
}

} // verus!

verus! {

/// The class names registered before the number natives are all other than
/// `java/lang/Float` and `java/lang/Double`, so the lookup of a number native reaches
/// their group.
proof fn lemma_number_natives_reached(class: Seq<char>, name: Seq<char>, descriptor: Seq<char>)
    requires
        class == "java/lang/Float"@ || class == "java/lang/Double"@,
        number_natives(class, name, descriptor) is Some,
    ensures
        native_table(class, name, descriptor) == number_natives(class, name, descriptor),
{
    reveal_strlit("java/lang/Float");
    reveal_strlit("java/lang/Double");
    reveal_strlit("java/io/FileInputStream");
    reveal_strlit("java/io/FileOutputStream");
    reveal_strlit("java/io/RandomAccessFile");
    reveal_strlit("java/io/UnixFileSystem");
    reveal_strlit("java/lang/Package");
    reveal_strlit("java/lang/ProcessEnvironment");
    reveal_strlit("java/lang/Runtime");
    reveal_strlit("java/lang/String");
    reveal_strlit("java/lang/Thread");
    reveal_strlit("java/lang/Throwable");
    reveal_strlit("java/lang/reflect/Array");
    reveal_strlit("java/lang/Class");
    reveal_strlit("java/lang/ClassLoader");
    reveal_strlit("java/lang/ClassLoader$NativeLibrary");
    assert("java/lang/Float"@[10] != "java/lang/Class"@[10]);
    assert("java/lang/Double"@[10] != "java/lang/String"@[10]);
    assert("java/lang/Double"@[10] != "java/lang/Thread"@[10]);
    assert(io_natives(class, name, descriptor) is None);
    assert(lang_natives(class, name, descriptor) is None);
    assert(class_natives(class, name, descriptor) is None);
    assert(class_loader_natives(class, name, descriptor) is None);
}

/// The number natives turn a floating-point value into its bits and back, and nothing
/// else: `Float.floatToRawIntBits(f)` gives the int with the bits of `f`,
/// `Double.doubleToRawLongBits(d)` the long with the bits of `d`, and
/// `Double.longBitsToDouble(l)` the double with the bits of `l`; none touches the heap or
/// native memory. So `longBitsToDouble(doubleToRawLongBits(d))` gives `d` back.
pub proof fn law_number_natives_keep_bits(
    f: u32,
    d: u64,
    l: i64,
    oh: Map<RefId, ReferenceValue>,
    nh: Map<RefId, ReferenceValue>,
    om: Unsafe,
    nm: Unsafe,
    this: Option<RefId>,
    class_statics: Option<RefId>,
    r: NativeResult,
    r2: NativeResult,
)
    ensures
        native_table("java/lang/Float"@, "floatToRawIntBits"@, "(F)I"@) matches Some(m) && (native_ensures(
            m,
            oh,
            nh,
            om,
            nm,
            this,
            seq![Value::Float(f)],
            class_statics,
            r,
        ) ==> r == Ok::<Option<Value>, VmError>(Some(Value::Integer(f as i32))) && nh == oh && nm == om),
        native_table("java/lang/Double"@, "doubleToRawLongBits"@, "(D)J"@) matches Some(m) && (native_ensures(
            m,
            oh,
            nh,
            om,
            nm,
            this,
            seq![Value::Double(d), Value::Dummy],
            class_statics,
            r,
        ) ==> r == Ok::<Option<Value>, VmError>(Some(Value::Long(d as i64))) && nh == oh && nm == om),
        native_table("java/lang/Double"@, "longBitsToDouble"@, "(J)D"@) matches Some(m) && (native_ensures(
            m,
            oh,
            nh,
            om,
            nm,
            this,
            seq![Value::Long(l), Value::Dummy],
            class_statics,
            r,
        ) ==> r == Ok::<Option<Value>, VmError>(Some(Value::Double(l as u64))) && nh == oh && nm == om),
        native_table("java/lang/Double"@, "longBitsToDouble"@, "(J)D"@) matches Some(m) && (native_ensures(
            m,
            oh,
            nh,
            om,
            nm,
            this,
            seq![Value::Long(d as i64), Value::Dummy],
            class_statics,
            r2,
        ) ==> r2 == Ok::<Option<Value>, VmError>(Some(Value::Double(d)))),
{
    reveal_strlit("java/lang/Float");
    reveal_strlit("java/lang/Double");
    reveal_strlit("doubleToRawLongBits");
    reveal_strlit("longBitsToDouble");
    assert("java/lang/Float"@.len() != "java/lang/Double"@.len());
    assert("doubleToRawLongBits"@.len() != "longBitsToDouble"@.len());
    lemma_number_natives_reached("java/lang/Float"@, "floatToRawIntBits"@, "(F)I"@);
    lemma_number_natives_reached("java/lang/Double"@, "doubleToRawLongBits"@, "(D)J"@);
    lemma_number_natives_reached("java/lang/Double"@, "longBitsToDouble"@, "(J)D"@);
    assert((d as i64) as u64 == d) by (bit_vector);
}

/// The class whose native method `m` implements.
pub open spec fn native_class(m: NativeMethod) -> Seq<char> {
    match m {
        NativeMethod::IsPrimitive => "java/lang/Class"@,
        NativeMethod::FloatToRawBits => "java/lang/Float"@,
        NativeMethod::DoubleToRawBits => "java/lang/Double"@,
        NativeMethod::LongBitsToDouble => "java/lang/Double"@,
        NativeMethod::Arraycopy => "java/lang/System"@,
        NativeMethod::ArrayBaseOffset => "sun/misc/Unsafe"@,
        NativeMethod::ArrayIndexScale => "sun/misc/Unsafe"@,
        NativeMethod::AddressSize => "sun/misc/Unsafe"@,
        NativeMethod::PutObjectVolatile => "sun/misc/Unsafe"@,
        NativeMethod::GetObjectVolatile => "sun/misc/Unsafe"@,
        NativeMethod::PutIntVolatile => "sun/misc/Unsafe"@,
        NativeMethod::GetIntVolatile => "sun/misc/Unsafe"@,
        NativeMethod::PutLongVolatile => "sun/misc/Unsafe"@,
        NativeMethod::GetLongVolatile => "sun/misc/Unsafe"@,
        NativeMethod::CompareAndSwapObject => "sun/misc/Unsafe"@,
        NativeMethod::CompareAndSwapInt => "sun/misc/Unsafe"@,
        NativeMethod::CompareAndSwapLong => "sun/misc/Unsafe"@,
        NativeMethod::AllocateMemory => "sun/misc/Unsafe"@,
        NativeMethod::SetMemory => "sun/misc/Unsafe"@,
        NativeMethod::CopyMemory => "sun/misc/Unsafe"@,
        NativeMethod::FreeMemory => "sun/misc/Unsafe"@,
        NativeMethod::PageSize => "sun/misc/Unsafe"@,
        NativeMethod::PutLong => "sun/misc/Unsafe"@,
        NativeMethod::GetLong => "sun/misc/Unsafe"@,
        NativeMethod::PutInt => "sun/misc/Unsafe"@,
        NativeMethod::GetInt => "sun/misc/Unsafe"@,
        NativeMethod::GetByte => "sun/misc/Unsafe"@,
        NativeMethod::PutOrderedObject => "sun/misc/Unsafe"@,
        NativeMethod::Machine(_) => ""@,
    }
}
/// The descriptor of the Java method that `m` implements.
pub open spec fn native_descriptor(m: NativeMethod) -> Seq<char> {
    match m {
        NativeMethod::IsPrimitive => "()Z"@,
        NativeMethod::FloatToRawBits => "(F)I"@,
        NativeMethod::DoubleToRawBits => "(D)J"@,
        NativeMethod::LongBitsToDouble => "(J)D"@,
        NativeMethod::Arraycopy => "(Ljava/lang/Object;ILjava/lang/Object;II)V"@,
        NativeMethod::ArrayBaseOffset => "(Ljava/lang/Class;)I"@,
        NativeMethod::ArrayIndexScale => "(Ljava/lang/Class;)I"@,
        NativeMethod::AddressSize => "()I"@,
        NativeMethod::PutObjectVolatile => "(Ljava/lang/Object;JLjava/lang/Object;)V"@,
        NativeMethod::GetObjectVolatile => "(Ljava/lang/Object;J)Ljava/lang/Object;"@,
        NativeMethod::PutIntVolatile => "(Ljava/lang/Object;JI)V"@,
        NativeMethod::GetIntVolatile => "(Ljava/lang/Object;J)I"@,
        NativeMethod::PutLongVolatile => "(Ljava/lang/Object;JJ)V"@,
        NativeMethod::GetLongVolatile => "(Ljava/lang/Object;J)J"@,
        NativeMethod::CompareAndSwapObject => "(Ljava/lang/Object;JLjava/lang/Object;Ljava/lang/Object;)Z"@,
        NativeMethod::CompareAndSwapInt => "(Ljava/lang/Object;JII)Z"@,
        NativeMethod::CompareAndSwapLong => "(Ljava/lang/Object;JJJ)Z"@,
        NativeMethod::AllocateMemory => "(J)J"@,
        NativeMethod::SetMemory => "(Ljava/lang/Object;JJB)V"@,
        NativeMethod::CopyMemory => "(Ljava/lang/Object;JLjava/lang/Object;JJ)V"@,
        NativeMethod::FreeMemory => "(J)V"@,
        NativeMethod::PageSize => "()I"@,
        NativeMethod::PutLong => "(JJ)V"@,
        NativeMethod::GetLong => "(J)J"@,
        NativeMethod::PutInt => "(JI)V"@,
        NativeMethod::GetInt => "(J)I"@,
        NativeMethod::GetByte => "(J)B"@,
        NativeMethod::PutOrderedObject => "(Ljava/lang/Object;JLjava/lang/Object;)V"@,
        NativeMethod::Machine(_) => ""@,
    }
}
/// The names under which the class declares the Java method that `m` implements.
pub open spec fn native_names(m: NativeMethod) -> Set<Seq<char>> {
    match m {
        NativeMethod::IsPrimitive => set!["isPrimitive"@],
        NativeMethod::FloatToRawBits => set!["floatToRawIntBits"@],
        NativeMethod::DoubleToRawBits => set!["doubleToRawLongBits"@],
        NativeMethod::LongBitsToDouble => set!["longBitsToDouble"@],
        NativeMethod::Arraycopy => set!["arraycopy"@],
        NativeMethod::ArrayBaseOffset => set!["arrayBaseOffset"@],
        NativeMethod::ArrayIndexScale => set!["arrayIndexScale"@],
        NativeMethod::AddressSize => set!["addressSize"@],
        NativeMethod::PutObjectVolatile => set!["putObjectVolatile"@, "putObject"@],
        NativeMethod::GetObjectVolatile => set!["getObjectVolatile"@, "getObject"@],
        NativeMethod::PutIntVolatile => set!["putIntVolatile"@, "putInt"@],
        NativeMethod::GetIntVolatile => set!["getIntVolatile"@, "getInt"@],
        NativeMethod::PutLongVolatile => set!["putLongVolatile"@, "putLong"@],
        NativeMethod::GetLongVolatile => set!["getLongVolatile"@, "getLong"@],
        NativeMethod::CompareAndSwapObject => set!["compareAndSwapObject"@],
        NativeMethod::CompareAndSwapInt => set!["compareAndSwapInt"@],
        NativeMethod::CompareAndSwapLong => set!["compareAndSwapLong"@],
        NativeMethod::AllocateMemory => set!["allocateMemory"@],
        NativeMethod::SetMemory => set!["setMemory"@],
        NativeMethod::CopyMemory => set!["copyMemory"@],
        NativeMethod::FreeMemory => set!["freeMemory"@],
        NativeMethod::PageSize => set!["pageSize"@],
        NativeMethod::PutLong => set!["putLong"@],
        NativeMethod::GetLong => set!["getLong"@],
        NativeMethod::PutInt => set!["putInt"@],
        NativeMethod::GetInt => set!["getInt"@],
        NativeMethod::GetByte => set!["getByte"@],
        NativeMethod::PutOrderedObject => set!["putOrderedObject"@],
        NativeMethod::Machine(_) => Set::empty(),
    }
}
/// Every native method that runs here is registered only for the Java method it
/// implements: under its class, with its descriptor, and under one of its names.
pub proof fn law_natives_registered_for_their_method(
    class: Seq<char>,
    name: Seq<char>,
    descriptor: Seq<char>,
    m: NativeMethod,
)
    ensures
        native_table(class, name, descriptor) == Some(m) && !(m is Machine) ==> class == native_class(m)
            && descriptor == native_descriptor(m) && native_names(m).contains(name),
{
}

/// The classes whose native method the machine carries out as `k`.
pub open spec fn machine_classes(k: MachineNative) -> Set<Seq<char>> {
    match k {
        MachineNative::WriteBytes => set!["java/io/FileOutputStream"@],
        MachineNative::ReadBytes => set!["java/io/FileInputStream"@],
        MachineNative::Open0 => set!["java/io/FileInputStream"@],
        MachineNative::Close0 => set!["java/io/FileInputStream"@],
        MachineNative::Available0 => set!["java/io/FileInputStream"@],
        MachineNative::GetBooleanAttributes => set!["java/io/UnixFileSystem"@],
        MachineNative::Canonicalize0 => set!["java/io/UnixFileSystem"@],
        MachineNative::LastModifiedTime => set!["java/io/UnixFileSystem"@],
        MachineNative::CheckAccess => set!["java/io/UnixFileSystem"@],
        MachineNative::List => set!["java/io/UnixFileSystem"@],
        MachineNative::CreateDirectory => set!["java/io/UnixFileSystem"@],
        MachineNative::RafOpen0 => set!["java/io/RandomAccessFile"@],
        MachineNative::RafClose0 => set!["java/io/RandomAccessFile"@],
        MachineNative::FillInStackTrace => set!["java/lang/Throwable"@],
        MachineNative::StackTraceDepth => set!["java/lang/Throwable"@],
        MachineNative::Intern => set!["java/lang/String"@],
        MachineNative::CurrentThread => set!["java/lang/Thread"@],
        MachineNative::IsAlive => set!["java/lang/Thread"@],
        MachineNative::HoldsLock => set!["java/lang/Thread"@],
        MachineNative::SetPriority0 => set!["java/lang/Thread"@],
        MachineNative::Start0 => set!["java/lang/Thread"@],
        MachineNative::Yield => set!["java/lang/Thread"@],
        MachineNative::IsInterrupted => set!["java/lang/Thread"@],
        MachineNative::AvailableProcessors => set!["java/lang/Runtime"@],
        MachineNative::RuntimeFreeMemory => set!["java/lang/Runtime"@],
        MachineNative::Environ => set!["java/lang/ProcessEnvironment"@],
        MachineNative::GetSystemPackage0 => set!["java/lang/Package"@],
        MachineNative::NewArray => set!["java/lang/reflect/Array"@],
        MachineNative::GetPrimitiveClass => set!["java/lang/Class"@],
        MachineNative::GetComponentType => set!["java/lang/Class"@],
        MachineNative::GetClassLoader0 => set!["java/lang/Class"@],
        MachineNative::GetProtectionDomain0 => set!["java/lang/Class"@],
        MachineNative::DesiredAssertionStatus0 => set!["java/lang/Class"@],
        MachineNative::GetDeclaredFields0 => set!["java/lang/Class"@],
        MachineNative::GetDeclaredConstructors0 => set!["java/lang/Class"@],
        MachineNative::GetDeclaredMethods0 => set!["java/lang/Class"@],
        MachineNative::GetModifiers => set!["java/lang/Class"@],
        MachineNative::GetSuperclass => set!["java/lang/Class"@],
        MachineNative::GetEnclosingMethod0 => set!["java/lang/Class"@],
        MachineNative::GetDeclaringClass0 => set!["java/lang/Class"@],
        MachineNative::GetDeclaredClasses0 => set!["java/lang/Class"@],
        MachineNative::ForName0 => set!["java/lang/Class"@],
        MachineNative::IsInterface => set!["java/lang/Class"@],
        MachineNative::IsArray => set!["java/lang/Class"@],
        MachineNative::IsAssignableFrom => set!["java/lang/Class"@],
        MachineNative::FindLoadedClass0 => set!["java/lang/ClassLoader"@],
        MachineNative::FindBootstrapClass => set!["java/lang/ClassLoader"@],
        MachineNative::FindBuiltinLib => set!["java/lang/ClassLoader"@],
        MachineNative::NativeLibLoad => set!["java/lang/ClassLoader$NativeLibrary"@],
        MachineNative::GetClass => set!["java/lang/Object"@, "[Ljava/lang/Object;"@],
        MachineNative::HashCode => set!["java/lang/Object"@],
        MachineNative::CloneObject => set!["java/lang/Object"@, "[Ljava/lang/Object;"@],
        MachineNative::Wait => set!["java/lang/Object"@],
        MachineNative::Notify => set!["java/lang/Object"@],
        MachineNative::NotifyAll => set!["java/lang/Object"@],
        MachineNative::NanoTime => set!["java/lang/System"@],
        MachineNative::CurrentTimeMillis => set!["java/lang/System"@],
        MachineNative::IdentityHashCode => set!["java/lang/System"@],
        MachineNative::SetOut0 => set!["java/lang/System"@],
        MachineNative::SetErr0 => set!["java/lang/System"@],
        MachineNative::InitProperties => set!["java/lang/System"@],
        MachineNative::MapLibraryName => set!["java/lang/System"@],
        MachineNative::Invoke => set!["java/lang/invoke/MethodHandle"@],
        MachineNative::LinkToStatic => set!["java/lang/invoke/MethodHandle"@],
        MachineNative::GetConstant => set!["java/lang/invoke/MethodHandleNatives"@],
        MachineNative::GetNamedCon => set!["java/lang/invoke/MethodHandleNatives"@],
        MachineNative::MemberObjectFieldOffset => set!["java/lang/invoke/MethodHandleNatives"@],
        MachineNative::GetMembers => set!["java/lang/invoke/MethodHandleNatives"@],
        MachineNative::GetMemberVmInfo => set!["java/lang/invoke/MethodHandleNatives"@],
        MachineNative::MemberInit => set!["java/lang/invoke/MethodHandleNatives"@],
        MachineNative::MemberResolve => set!["java/lang/invoke/MethodHandleNatives"@],
        MachineNative::GetStackAccessControlContext => set!["java/security/AccessController"@],
        MachineNative::DoPrivileged => set!["java/security/AccessController"@],
        MachineNative::VmSupportsCs8 => set!["java/util/concurrent/atomic/AtomicLong"@],
        MachineNative::VmInitialize => set!["sun/misc/VM"@],
        MachineNative::FindSignal => set!["sun/misc/Signal"@],
        MachineNative::Handle0 => set!["sun/misc/Signal"@],
        MachineNative::LookupCacheUrls => set!["sun/misc/URLClassPath"@],
        MachineNative::CreateLong => set!["sun/misc/Perf"@],
        MachineNative::DispatcherInit => set!["sun/nio/fs/UnixNativeDispatcher"@],
        MachineNative::DispatcherGetcwd => set!["sun/nio/fs/UnixNativeDispatcher"@],
        MachineNative::ObjectFieldOffset => set!["sun/misc/Unsafe"@],
        MachineNative::StaticFieldOffset => set!["sun/misc/Unsafe"@],
        MachineNative::StaticFieldBase => set!["sun/misc/Unsafe"@],
        MachineNative::DefineClass => set!["sun/misc/Unsafe"@],
        MachineNative::DefineAnonClass => set!["sun/misc/Unsafe"@],
        MachineNative::AllocateInstance => set!["sun/misc/Unsafe"@],
        MachineNative::ShouldBeInitialized => set!["sun/misc/Unsafe"@],
        MachineNative::EnsureInitialized => set!["sun/misc/Unsafe"@],
        MachineNative::Park => set!["sun/misc/Unsafe"@],
        MachineNative::Unpark => set!["sun/misc/Unsafe"@],
        MachineNative::GetCallerClass => set!["sun/reflect/Reflection"@],
        MachineNative::GetClassAccessFlags => set!["sun/reflect/Reflection"@],
        MachineNative::NewInstance0 => set!["sun/reflect/NativeConstructorAccessorImpl"@],
        MachineNative::Invoke0 => set!["sun/reflect/NativeMethodAccessorImpl"@],
    }
}
/// The descriptors of the Java methods that the machine carries out as `k`.
pub open spec fn machine_descriptors(k: MachineNative) -> Set<Seq<char>> {
    match k {
        MachineNative::WriteBytes => set!["([BIIZ)V"@],
        MachineNative::ReadBytes => set!["([BII)I"@],
        MachineNative::Open0 => set!["(Ljava/lang/String;)V"@],
        MachineNative::Close0 => set!["()V"@],
        MachineNative::Available0 => set!["()I"@],
        MachineNative::GetBooleanAttributes => set!["(Ljava/io/File;)I"@],
        MachineNative::Canonicalize0 => set!["(Ljava/lang/String;)Ljava/lang/String;"@],
        MachineNative::LastModifiedTime => set!["(Ljava/io/File;)J"@],
        MachineNative::CheckAccess => set!["(Ljava/io/File;I)Z"@],
        MachineNative::List => set!["(Ljava/io/File;)[Ljava/lang/String;"@],
        MachineNative::CreateDirectory => set!["(Ljava/io/File;)Z"@],
        MachineNative::RafOpen0 => set!["(Ljava/lang/String;I)V"@],
        MachineNative::RafClose0 => set!["()V"@],
        MachineNative::FillInStackTrace => set!["(I)Ljava/lang/Throwable;"@],
        MachineNative::StackTraceDepth => set!["()I"@],
        MachineNative::Intern => set!["()Ljava/lang/String;"@],
        MachineNative::CurrentThread => set!["()Ljava/lang/Thread;"@],
        MachineNative::IsAlive => set!["()Z"@],
        MachineNative::HoldsLock => set!["(Ljava/lang/Object;)Z"@],
        MachineNative::SetPriority0 => set!["(I)V"@],
        MachineNative::Start0 => set!["()V"@],
        MachineNative::Yield => set!["()V"@],
        MachineNative::IsInterrupted => set!["(Z)Z"@],
        MachineNative::AvailableProcessors => set!["()I"@],
        MachineNative::RuntimeFreeMemory => set!["()J"@],
        MachineNative::Environ => set!["()[[B"@],
        MachineNative::GetSystemPackage0 => set!["(Ljava/lang/String;)Ljava/lang/String;"@],
        MachineNative::NewArray => set!["(Ljava/lang/Class;I)Ljava/lang/Object;"@],
        MachineNative::GetPrimitiveClass => set!["(Ljava/lang/String;)Ljava/lang/Class;"@],
        MachineNative::GetComponentType => set!["()Ljava/lang/Class;"@],
        MachineNative::GetClassLoader0 => set!["()Ljava/lang/ClassLoader;"@],
        MachineNative::GetProtectionDomain0 => set!["()Ljava/security/ProtectionDomain;"@],
        MachineNative::DesiredAssertionStatus0 => set!["(Ljava/lang/Class;)Z"@],
        MachineNative::GetDeclaredFields0 => set!["(Z)[Ljava/lang/reflect/Field;"@],
        MachineNative::GetDeclaredConstructors0 => set!["(Z)[Ljava/lang/reflect/Constructor;"@],
        MachineNative::GetDeclaredMethods0 => set!["(Z)[Ljava/lang/reflect/Method;"@],
        MachineNative::GetModifiers => set!["()I"@],
        MachineNative::GetSuperclass => set!["()Ljava/lang/Class;"@],
        MachineNative::GetEnclosingMethod0 => set!["()[Ljava/lang/Object;"@],
        MachineNative::GetDeclaringClass0 => set!["()Ljava/lang/Class;"@],
        MachineNative::GetDeclaredClasses0 => set!["()[Ljava/lang/Class;"@],
        MachineNative::ForName0 => set!["(Ljava/lang/String;ZLjava/lang/ClassLoader;Ljava/lang/Class;)Ljava/lang/Class;"@],
        MachineNative::IsInterface => set!["()Z"@],
        MachineNative::IsArray => set!["()Z"@],
        MachineNative::IsAssignableFrom => set!["(Ljava/lang/Class;)Z"@],
        MachineNative::FindLoadedClass0 => set!["(Ljava/lang/String;)Ljava/lang/Class;"@],
        MachineNative::FindBootstrapClass => set!["(Ljava/lang/String;)Ljava/lang/Class;"@],
        MachineNative::FindBuiltinLib => set!["(Ljava/lang/String;)Ljava/lang/String;"@],
        MachineNative::NativeLibLoad => set!["(Ljava/lang/String;Z)V"@],
        MachineNative::GetClass => set!["()Ljava/lang/Class;"@],
        MachineNative::HashCode => set!["()I"@],
        MachineNative::CloneObject => set!["()Ljava/lang/Object;"@],
        MachineNative::Wait => set!["(J)V"@],
        MachineNative::Notify => set!["()V"@],
        MachineNative::NotifyAll => set!["()V"@],
        MachineNative::NanoTime => set!["()J"@],
        MachineNative::CurrentTimeMillis => set!["()J"@],
        MachineNative::IdentityHashCode => set!["(Ljava/lang/Object;)I"@],
        MachineNative::SetOut0 => set!["(Ljava/io/PrintStream;)V"@],
        MachineNative::SetErr0 => set!["(Ljava/io/PrintStream;)V"@],
        MachineNative::InitProperties => set!["(Ljava/util/Properties;)Ljava/util/Properties;"@],
        MachineNative::MapLibraryName => set!["(Ljava/lang/String;)Ljava/lang/String;"@],
        MachineNative::Invoke => set!["([Ljava/lang/Object;)Ljava/lang/Object;"@],
        MachineNative::LinkToStatic => set!["([Ljava/lang/Object;)Ljava/lang/Object;"@],
        MachineNative::GetConstant => set!["(I)I"@],
        MachineNative::GetNamedCon => set!["(I[Ljava/lang/Object;)I"@],
        MachineNative::MemberObjectFieldOffset => set!["(Ljava/lang/invoke/MemberName;)J"@],
        MachineNative::GetMembers => set!["(Ljava/lang/Class;Ljava/lang/String;Ljava/lang/String;ILjava/lang/Class;I[Ljava/lang/invoke/MemberName;)I"@],
        MachineNative::GetMemberVmInfo => set!["(Ljava/lang/invoke/MemberName;)Ljava/lang/Object;"@],
        MachineNative::MemberInit => set!["(Ljava/lang/invoke/MemberName;Ljava/lang/Object;)V"@],
        MachineNative::MemberResolve => set!["(Ljava/lang/invoke/MemberName;Ljava/lang/Class;)Ljava/lang/invoke/MemberName;"@],
        MachineNative::GetStackAccessControlContext => set!["()Ljava/security/AccessControlContext;"@],
        MachineNative::DoPrivileged => set!["(Ljava/security/PrivilegedAction;)Ljava/lang/Object;"@, "(Ljava/security/PrivilegedAction;Ljava/security/AccessControlContext;)Ljava/lang/Object;"@, "(Ljava/security/PrivilegedExceptionAction;)Ljava/lang/Object;"@, "(Ljava/security/PrivilegedExceptionAction;Ljava/security/AccessControlContext;)Ljava/lang/Object;"@],
        MachineNative::VmSupportsCs8 => set!["()Z"@],
        MachineNative::VmInitialize => set!["()V"@],
        MachineNative::FindSignal => set!["(Ljava/lang/String;)I"@],
        MachineNative::Handle0 => set!["(IJ)J"@],
        MachineNative::LookupCacheUrls => set!["(Ljava/lang/ClassLoader;)[Ljava/net/URL;"@],
        MachineNative::CreateLong => set!["(Ljava/lang/String;IIJ)Ljava/nio/ByteBuffer;"@],
        MachineNative::DispatcherInit => set!["()I"@],
        MachineNative::DispatcherGetcwd => set!["()[B"@],
        MachineNative::ObjectFieldOffset => set!["(Ljava/lang/reflect/Field;)J"@],
        MachineNative::StaticFieldOffset => set!["(Ljava/lang/reflect/Field;)J"@],
        MachineNative::StaticFieldBase => set!["(Ljava/lang/reflect/Field;)Ljava/lang/Object;"@],
        MachineNative::DefineClass => set!["(Ljava/lang/String;[BIILjava/lang/ClassLoader;Ljava/security/ProtectionDomain;)Ljava/lang/Class;"@],
        MachineNative::DefineAnonClass => set!["(Ljava/lang/Class;[B[Ljava/lang/Object;)Ljava/lang/Class;"@],
        MachineNative::AllocateInstance => set!["(Ljava/lang/Class;)Ljava/lang/Object;"@],
        MachineNative::ShouldBeInitialized => set!["(Ljava/lang/Class;)Z"@],
        MachineNative::EnsureInitialized => set!["(Ljava/lang/Class;)V"@],
        MachineNative::Park => set!["(ZJ)V"@],
        MachineNative::Unpark => set!["(Ljava/lang/Object;)V"@],
        MachineNative::GetCallerClass => set!["()Ljava/lang/Class;"@],
        MachineNative::GetClassAccessFlags => set!["(Ljava/lang/Class;)I"@],
        MachineNative::NewInstance0 => set!["(Ljava/lang/reflect/Constructor;[Ljava/lang/Object;)Ljava/lang/Object;"@],
        MachineNative::Invoke0 => set!["(Ljava/lang/reflect/Method;Ljava/lang/Object;[Ljava/lang/Object;)Ljava/lang/Object;"@],
    }
}
/// The names of the Java methods that the machine carries out as `k`.
pub open spec fn machine_names(k: MachineNative) -> Set<Seq<char>> {
    match k {
        MachineNative::WriteBytes => set!["writeBytes"@],
        MachineNative::ReadBytes => set!["readBytes"@],
        MachineNative::Open0 => set!["open0"@],
        MachineNative::Close0 => set!["close0"@],
        MachineNative::Available0 => set!["available0"@],
        MachineNative::GetBooleanAttributes => set!["getBooleanAttributes0"@],
        MachineNative::Canonicalize0 => set!["canonicalize0"@],
        MachineNative::LastModifiedTime => set!["getLastModifiedTime"@],
        MachineNative::CheckAccess => set!["checkAccess"@],
        MachineNative::List => set!["list"@],
        MachineNative::CreateDirectory => set!["createDirectory"@],
        MachineNative::RafOpen0 => set!["open0"@],
        MachineNative::RafClose0 => set!["close0"@],
        MachineNative::FillInStackTrace => set!["fillInStackTrace"@],
        MachineNative::StackTraceDepth => set!["getStackTraceDepth"@],
        MachineNative::Intern => set!["intern"@],
        MachineNative::CurrentThread => set!["currentThread"@],
        MachineNative::IsAlive => set!["isAlive"@],
        MachineNative::HoldsLock => set!["holdsLock"@],
        MachineNative::SetPriority0 => set!["setPriority0"@],
        MachineNative::Start0 => set!["start0"@],
        MachineNative::Yield => set!["yield"@],
        MachineNative::IsInterrupted => set!["isInterrupted"@],
        MachineNative::AvailableProcessors => set!["availableProcessors"@],
        MachineNative::RuntimeFreeMemory => set!["freeMemory"@],
        MachineNative::Environ => set!["environ"@],
        MachineNative::GetSystemPackage0 => set!["getSystemPackage0"@],
        MachineNative::NewArray => set!["newArray"@],
        MachineNative::GetPrimitiveClass => set!["getPrimitiveClass"@],
        MachineNative::GetComponentType => set!["getComponentType"@],
        MachineNative::GetClassLoader0 => set!["getClassLoader0"@],
        MachineNative::GetProtectionDomain0 => set!["getProtectionDomain0"@],
        MachineNative::DesiredAssertionStatus0 => set!["desiredAssertionStatus0"@],
        MachineNative::GetDeclaredFields0 => set!["getDeclaredFields0"@],
        MachineNative::GetDeclaredConstructors0 => set!["getDeclaredConstructors0"@],
        MachineNative::GetDeclaredMethods0 => set!["getDeclaredMethods0"@],
        MachineNative::GetModifiers => set!["getModifiers"@],
        MachineNative::GetSuperclass => set!["getSuperclass"@],
        MachineNative::GetEnclosingMethod0 => set!["getEnclosingMethod0"@],
        MachineNative::GetDeclaringClass0 => set!["getDeclaringClass0"@],
        MachineNative::GetDeclaredClasses0 => set!["getDeclaredClasses0"@],
        MachineNative::ForName0 => set!["forName0"@],
        MachineNative::IsInterface => set!["isInterface"@],
        MachineNative::IsArray => set!["isArray"@],
        MachineNative::IsAssignableFrom => set!["isAssignableFrom"@],
        MachineNative::FindLoadedClass0 => set!["findLoadedClass0"@],
        MachineNative::FindBootstrapClass => set!["findBootstrapClass"@],
        MachineNative::FindBuiltinLib => set!["findBuiltinLib"@],
        MachineNative::NativeLibLoad => set!["load"@],
        MachineNative::GetClass => set!["getClass"@],
        MachineNative::HashCode => set!["hashCode"@],
        MachineNative::CloneObject => set!["clone"@],
        MachineNative::Wait => set!["wait"@],
        MachineNative::Notify => set!["notify"@],
        MachineNative::NotifyAll => set!["notifyAll"@],
        MachineNative::NanoTime => set!["nanoTime"@],
        MachineNative::CurrentTimeMillis => set!["currentTimeMillis"@],
        MachineNative::IdentityHashCode => set!["identityHashCode"@],
        MachineNative::SetOut0 => set!["setOut0"@],
        MachineNative::SetErr0 => set!["setErr0"@],
        MachineNative::InitProperties => set!["initProperties"@],
        MachineNative::MapLibraryName => set!["mapLibraryName"@],
        MachineNative::Invoke => set!["invoke"@, "invokeBasic"@, "invokeExact"@],
        MachineNative::LinkToStatic => set!["linkToStatic"@],
        MachineNative::GetConstant => set!["getConstant"@],
        MachineNative::GetNamedCon => set!["getNamedCon"@],
        MachineNative::MemberObjectFieldOffset => set!["objectFieldOffset"@],
        MachineNative::GetMembers => set!["getMembers"@],
        MachineNative::GetMemberVmInfo => set!["getMemberVMInfo"@],
        MachineNative::MemberInit => set!["init"@],
        MachineNative::MemberResolve => set!["resolve"@],
        MachineNative::GetStackAccessControlContext => set!["getStackAccessControlContext"@],
        MachineNative::DoPrivileged => set!["doPrivileged"@],
        MachineNative::VmSupportsCs8 => set!["VMSupportsCS8"@],
        MachineNative::VmInitialize => set!["initialize"@],
        MachineNative::FindSignal => set!["findSignal"@],
        MachineNative::Handle0 => set!["handle0"@],
        MachineNative::LookupCacheUrls => set!["getLookupCacheURLs"@],
        MachineNative::CreateLong => set!["createLong"@],
        MachineNative::DispatcherInit => set!["init"@],
        MachineNative::DispatcherGetcwd => set!["getcwd"@],
        MachineNative::ObjectFieldOffset => set!["objectFieldOffset"@],
        MachineNative::StaticFieldOffset => set!["staticFieldOffset"@],
        MachineNative::StaticFieldBase => set!["staticFieldBase"@],
        MachineNative::DefineClass => set!["defineClass"@],
        MachineNative::DefineAnonClass => set!["defineAnonymousClass"@],
        MachineNative::AllocateInstance => set!["allocateInstance"@],
        MachineNative::ShouldBeInitialized => set!["shouldBeInitialized"@],
        MachineNative::EnsureInitialized => set!["ensureClassInitialized"@],
        MachineNative::Park => set!["park"@],
        MachineNative::Unpark => set!["unpark"@],
        MachineNative::GetCallerClass => set!["getCallerClass"@],
        MachineNative::GetClassAccessFlags => set!["getClassAccessFlags"@],
        MachineNative::NewInstance0 => set!["newInstance0"@],
        MachineNative::Invoke0 => set!["invoke0"@],
    }
}
/// Every native method that the machine carries out is registered only for the Java
/// methods it stands for: under one of their classes, descriptors and names.
pub proof fn law_machine_natives_registered_for_their_method(
    class: Seq<char>,
    name: Seq<char>,
    descriptor: Seq<char>,
    k: MachineNative,
)
    ensures
        native_table(class, name, descriptor) == Some(NativeMethod::Machine(k)) ==> machine_classes(k).contains(class)
            && machine_descriptors(k).contains(descriptor) && machine_names(k).contains(name),
{
}

} // verus!
