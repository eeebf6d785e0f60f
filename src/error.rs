use vstd::prelude::*;

verus! {

/// A failure of a capture operation.
#[derive(Debug)]
pub enum ScreenShootError {
    /// A graphics-API call returned a failing result code.
    DDA { hresult: i32, file: &'static str, line: u32 },
    /// A legacy blit-API call returned a null handle or zero.
    GDI { last_error: u32, file: &'static str, line: u32 },
    /// Encoding or writing an image file failed.
    Save(String),
}

pub type ScreenShootResult<T> = Result<T, ScreenShootError>;

/// Turns a graphics-API result code into a `Result`: zero is success, any
/// other code is a failure recorded with the location of the call.
pub fn check_hresult(hresult: i32, file: &'static str, line: u32) -> (r: ScreenShootResult<()>)
    ensures
        hresult == 0 <==> r is Ok,
        r matches Err(e) ==> e == (ScreenShootError::DDA { hresult, file, line }),
{
    if hresult == 0 {
        Ok(())
    } else {
        Err(ScreenShootError::DDA { hresult, file, line })
    }
}

/// Turns the value of a legacy-API call into a `Result`: a nonzero value is
/// handed back, zero is a failure carrying the thread's last error code.
pub fn check_nonzero(value: usize, last_error: u32, file: &'static str, line: u32) -> (r:
    ScreenShootResult<usize>)
    ensures
        value != 0 <==> r is Ok,
        r matches Ok(v) ==> v == value,
        r matches Err(e) ==> e == (ScreenShootError::GDI { last_error, file, line }),
{
    if value == 0 {
        Err(ScreenShootError::GDI { last_error, file, line })
    } else {
        Ok(value)
    }
}

} // verus!
