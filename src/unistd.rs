use vstd::prelude::*;
use crate::cstr::{all_nul_free, c_form, c_forms_of, nul_free, to_c_path, to_c_vector};
use crate::error::{SysError, SysResult, EINVAL};
use crate::fcntl::Fd;

verus! {

/// What a call that yields a descriptor amounts to: a negative raw return is a
/// failure carrying `errno`, any other return is the descriptor itself.
pub open spec fn fd_outcome(res: i32, errno: i32) -> SysResult<Fd> {
    if res < 0 {
        Err(SysError { errno })
    } else {
        Ok(res)
    }
}

/// What a call that yields nothing amounts to: a negative raw return is a
/// failure carrying `errno`, any other return is success.
pub open spec fn unit_outcome(res: i64, errno: i32) -> SysResult<()> {
    if res < 0 {
        Err(SysError { errno })
    } else {
        Ok(())
    }
}

/// Turns the raw return of `dup`, `dup2` or `dup3` and the error code read
/// right after it into a typed result.
pub fn fd_result(res: i32, errno: i32) -> (r: SysResult<Fd>)
    ensures
        r == fd_outcome(res, errno),
        r matches Ok(fd) ==> fd >= 0,
{
    if res < 0 {
        Err(SysError { errno })
    } else {
        Ok(res)
    }
}

/// Turns the raw return of `chdir` or `pivot_root` and the error code read
/// right after it into a typed result.
pub fn unit_result(res: i64, errno: i32) -> (r: SysResult<()>)
    ensures
        r == unit_outcome(res, errno),
{
    if res < 0 {
        Err(SysError { errno })
    } else {
        Ok(())
    }
}

/// Turns a return from `execve` into its failure. `execve` does not return when
/// it succeeds, so every return, whatever its raw value, is a failure carrying
/// the error code read right after it.
pub fn exec_error(res: i32, errno: i32) -> (e: SysError)
    ensures
        e == (SysError { errno }),
{
    SysError { errno }
}

/// No raw return, the boundary values included, becomes a negative descriptor
/// or a success of a call whose raw return was negative; every negative raw
/// return becomes a failure that carries the error code unchanged.
pub proof fn lemma_no_negative_success(res: i32, errno: i32)
    ensures
        fd_outcome(res, errno) matches Ok(fd) ==> fd == res && fd >= 0,
        unit_outcome(res as i64, errno) is Ok ==> res >= 0,
        res < 0 ==> fd_outcome(res, errno) == Err::<Fd, SysError>(SysError { errno }),
        res < 0 ==> unit_outcome(res as i64, errno) == Err::<(), SysError>(SysError { errno }),
        fd_outcome(0, errno) == Ok::<Fd, SysError>(0),
        fd_outcome(-1i32, errno) is Err,
        fd_outcome(i32::MIN, errno) is Err,
        unit_outcome(0, errno) is Ok,
        unit_outcome(-1i64, errno) is Err,
        unit_outcome(i32::MIN as i64, errno) is Err,
{
}

/// The arguments of `execve` in the form the kernel takes: the program's path
/// and each argument and environment string, each ending in one zero byte.
/// The caller ends the two vectors with a null sentinel.
pub struct ExecArgs {
    pub filename: Vec<u8>,
    pub args: Vec<Vec<u8>>,
    pub env: Vec<Vec<u8>>,
}

impl ExecArgs {
    /// Marshals `filename`, `args` and `env`, keeping the order of both vectors.
    /// Any of them holding a zero byte is refused with `EINVAL`.
    pub fn new(filename: &[u8], args: &[Vec<u8>], env: &[Vec<u8>]) -> (r: SysResult<ExecArgs>)
        ensures
            (nul_free(filename@) && all_nul_free(args@) && all_nul_free(env@)) <==> r is Ok,
            r matches Ok(a) ==> {
                &&& a.filename@ == c_form(filename@)
                &&& c_forms_of(a.args@, args@)
                &&& c_forms_of(a.env@, env@)
            },
            r matches Err(e) ==> e.errno == EINVAL,
    {
        let filename = match to_c_path(filename) {
            Ok(f) => f,
            Err(e) => return Err(e),
        };
        let args = match to_c_vector(args) {
            Ok(a) => a,
            Err(e) => return Err(e),
        };
        let env = match to_c_vector(env) {
            Ok(v) => v,
            Err(e) => return Err(e),
        };
        Ok(ExecArgs { filename, args, env })
    }
}

/// The two paths of `pivot_root` in the form the kernel takes, each ending in
/// one zero byte.
pub struct PivotRootArgs {
    pub new_root: Vec<u8>,
    pub put_old: Vec<u8>,
}

impl PivotRootArgs {
    /// Marshals `new_root` and `put_old`. Either holding a zero byte is refused
    /// with `EINVAL`.
    pub fn new(new_root: &[u8], put_old: &[u8]) -> (r: SysResult<PivotRootArgs>)
        ensures
            (nul_free(new_root@) && nul_free(put_old@)) <==> r is Ok,
            r matches Ok(a) ==> a.new_root@ == c_form(new_root@) && a.put_old@ == c_form(put_old@),
            r matches Err(e) ==> e.errno == EINVAL,
    {
        let new_root = match to_c_path(new_root) {
            Ok(p) => p,
            Err(e) => return Err(e),
        };
        let put_old = match to_c_path(put_old) {
            Ok(p) => p,
            Err(e) => return Err(e),
        };
        Ok(PivotRootArgs { new_root, put_old })
    }
}

} // verus!
