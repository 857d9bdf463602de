//! Boot-logo requests: the image checks, and the refusal while no direct
//! firmware path exists.
use vstd::prelude::*;

use super::models::{AppliedBootLogoSnapshot, ApplyBootLogoRequest};
use crate::text::{ascii_lower_chars, ascii_lower_seq, chars_equal, chars_of, push_decimal, spec_decimal, string_from};

verus! {

/// The largest boot-logo image accepted, in bytes (35 MiB).
pub const MAX_BOOT_LOGO_BYTES: u64 = 36700160;

/// Why a boot-logo apply is refused once the image passed its checks.
pub open spec fn direct_boot_logo_unavailable() -> Seq<char> {
    "Boot-logo firmware apply is disabled because AeroForge does not yet have a verified direct hardware path. The previous Acer service route has been removed."@
}

/// The extension (in ASCII lower case) is one the firmware takes.
pub open spec fn extension_accepted(extension: Seq<char>) -> bool {
    let e = ascii_lower_seq(extension);
    e == "jpg"@ || e == "jpeg"@ || e == "gif"@
}

/// The outcome of the path checks: the image must exist, be a file and be
/// a JPG, JPEG or GIF.
pub open spec fn entry_check(path: Seq<char>, exists: bool, is_file: bool, extension: Seq<char>) -> Result<
    (),
    Seq<char>,
> {
    if !exists {
        Err("Boot-logo image does not exist: "@ + path)
    } else if !is_file {
        Err("Boot-logo image path is not a file: "@ + path)
    } else if !extension_accepted(extension) {
        Err("Boot-logo image must be JPG, JPEG, or GIF before firmware apply."@)
    } else {
        Ok(())
    }
}

/// Checks the image path: whether it exists, is a file, and its extension
/// (empty when it has none).
pub fn validate_boot_logo_file(path: &str, exists: bool, is_file: bool, extension: &str) -> (r:
    Result<(), String>)
    ensures
        r is Ok <==> entry_check(path@, exists, is_file, extension@) is Ok,
        r matches Err(e) ==> entry_check(path@, exists, is_file, extension@) == Err::<(), Seq<char>>(
            e@,
        ),
{
    if !exists {
        let mut e = String::new();
        e.append("Boot-logo image does not exist: ");
        e.append(path);
        return Err(e);
    }
    if !is_file {
        let mut e = String::new();
        e.append("Boot-logo image path is not a file: ");
        e.append(path);
        return Err(e);
    }
    let ext = chars_of(extension);
    let lower = ascii_lower_chars(ext.as_slice());
    let jpg = chars_of("jpg");
    let jpeg = chars_of("jpeg");
    let gif = chars_of("gif");
    if !(chars_equal(lower.as_slice(), jpg.as_slice()) || chars_equal(lower.as_slice(), jpeg.as_slice())
        || chars_equal(lower.as_slice(), gif.as_slice())) {
        return Err(string_from("Boot-logo image must be JPG, JPEG, or GIF before firmware apply."));
    }
    Ok(())
}

/// The error for an image above the size limit.
pub open spec fn too_large_error(size: u64) -> Seq<char> {
    "Boot-logo image is too large: "@ + spec_decimal(size as nat) + " bytes, max "@ + spec_decimal(
        MAX_BOOT_LOGO_BYTES as nat,
    ) + " bytes."@
}

/// Checks the image size against the 35 MiB limit.
pub fn validate_boot_logo_size(size: u64) -> (r: Result<(), String>)
    ensures
        size <= MAX_BOOT_LOGO_BYTES ==> r is Ok,
        size > MAX_BOOT_LOGO_BYTES ==> (r matches Err(e) && e@ == too_large_error(size)),
{
    if size > MAX_BOOT_LOGO_BYTES {
        let mut e = String::new();
        e.append("Boot-logo image is too large: ");
        push_decimal(&mut e, size);
        e.append(" bytes, max ");
        push_decimal(&mut e, MAX_BOOT_LOGO_BYTES);
        e.append(" bytes.");
        assert(e@ =~= too_large_error(size));
        return Err(e);
    }
    Ok(())
}

/// The outcome of all the image checks, in order: existence, file kind,
/// extension, then the size limit.
pub open spec fn boot_logo_check(
    path: Seq<char>,
    exists: bool,
    is_file: bool,
    extension: Seq<char>,
    size: u64,
) -> Result<(), Seq<char>> {
    match entry_check(path, exists, is_file, extension) {
        Err(e) => Err(e),
        Ok(()) => if size > MAX_BOOT_LOGO_BYTES {
            Err(too_large_error(size))
        } else {
            Ok(())
        },
    }
}

/// Checks a boot-logo image: it must exist, be a file, be a JPG, JPEG or
/// GIF, and fit the 35 MiB limit; the first failing check gives the error.
pub fn validate_boot_logo(path: &str, exists: bool, is_file: bool, extension: &str, size: u64) -> (r:
    Result<(), String>)
    ensures
        r is Ok <==> boot_logo_check(path@, exists, is_file, extension@, size) is Ok,
        r matches Err(e) ==> boot_logo_check(path@, exists, is_file, extension@, size) == Err::<
            (),
            Seq<char>,
        >(e@),
{
    match validate_boot_logo_file(path, exists, is_file, extension) {
        Err(e) => Err(e),
        Ok(()) => validate_boot_logo_size(size),
    }
}

/// The warning logged for a staged image.
pub open spec fn staged_detail(request: ApplyBootLogoRequest) -> Seq<char> {
    direct_boot_logo_unavailable() + " Staged image: "@ + request.image_path@ + (match request.original_filename {
        Some(name) => " ("@ + name@ + ")"@,
        None => Seq::empty(),
    }) + "."@
}

/// The warning logged when an image is staged but cannot be written.
pub fn boot_logo_staged_detail(request: &ApplyBootLogoRequest) -> (r: String)
    ensures
        r@ == staged_detail(*request),
{
    let mut s = String::new();
    s.append(
        "Boot-logo firmware apply is disabled because AeroForge does not yet have a verified direct hardware path. The previous Acer service route has been removed.",
    );
    s.append(" Staged image: ");
    s.append(request.image_path.as_str());
    match &request.original_filename {
        Some(name) => {
            s.append(" (");
            s.append(name.as_str());
            s.append(")");
        },
        None => {},
    }
    s.append(".");
    assert(s@ =~= staged_detail(*request));
    s
}

/// The outcome of a boot-logo apply given the outcome of the image checks:
/// a failed check is returned as it is, and a passing image is refused
/// because no direct firmware path exists. A boot-logo apply never succeeds.
pub fn apply_boot_logo(request: &ApplyBootLogoRequest, checks: Result<(), String>) -> (r: Result<
    AppliedBootLogoSnapshot,
    String,
>)
    ensures
        r is Err,
        checks matches Err(e) ==> (r matches Err(f) && f == e),
        checks is Ok ==> (r matches Err(f) && f@ == direct_boot_logo_unavailable()),
{
    match checks {
        Err(e) => Err(e),
        Ok(()) => Err(
            string_from(
                "Boot-logo firmware apply is disabled because AeroForge does not yet have a verified direct hardware path. The previous Acer service route has been removed.",
            ),
        ),
    }
}

} // verus!
