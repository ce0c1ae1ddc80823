//! File commands: the default download directory is the server's download volume.

use vstd::prelude::*;
use crate::ctx::AppCtx;
use crate::text::owned;

verus! {

/// The default download directory.
pub fn get_default_download_dir_impl(ctx: &AppCtx) -> (r: String)
    ensures
        r@ == ctx.download_dir_view(),
{
    owned(ctx.download_dir())
}

/// Command: the default download directory.
pub fn get_default_download_dir(ctx: &AppCtx) -> (r: String)
    ensures
        r@ == ctx.download_dir_view(),
{
    get_default_download_dir_impl(ctx)
}

} // verus!
