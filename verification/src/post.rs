//! Posts, the durable unit of record, and the attachment a post may carry.

use vstd::prelude::*;

verus! {

/// The name a post carries when its author gave none.
pub fn default_name() -> (name: String)
    ensures
        name@ == "Anonymous"@,
{
    "Anonymous".to_owned()
}

/// One post of a thread, as the remote serves it and as it is stored.
///
/// A post is identified by `no`. An opening post has `resto == 0`; a reply
/// has `resto` equal to the number of its thread's opening post.
#[allow(clippy::struct_excessive_bools)]
#[derive(Debug)]
pub struct Post {
    /// The post number, unique over the whole board.
    pub no: i64,
    /// The thread replied to, or zero for an opening post.
    pub resto: i64,
    /// 1 while the thread is pinned.
    pub sticky: i64,
    /// 1 while the thread is closed to replies.
    pub closed: i64,
    /// Creation time as the remote prints it.
    pub now: String,
    /// Creation time as a UNIX timestamp.
    pub time: i64,
    /// The author's name.
    pub name: String,
    /// The author's tripcode.
    pub trip: Option<String>,
    /// The author's poster id.
    pub id: Option<String>,
    /// The capcode, for staff posts.
    pub capcode: Option<String>,
    /// Two-letter country code, where the board shows flags.
    pub country: Option<String>,
    pub country_name: Option<String>,
    /// Board flag code, where the board has its own flags.
    pub board_flag: Option<String>,
    pub flag_name: Option<String>,
    /// Subject; opening posts only.
    pub sub: Option<String>,
    /// Comment, which may hold markup.
    pub com: Option<String>,
    /// Upload time of the attachment, with microseconds: the upload id.
    pub tim: Option<i64>,
    /// Name of the file on the author's device.
    pub filename: Option<String>,
    /// File extension, with its dot.
    pub ext: Option<String>,
    /// Size of the file in bytes.
    pub fsize: Option<i64>,
    /// Checksum of the file.
    pub md5: Option<String>,
    /// Image width.
    pub w: Option<i64>,
    /// Image height.
    pub h: Option<i64>,
    /// Thumbnail width.
    pub tn_w: Option<i64>,
    /// Thumbnail height.
    pub tn_h: Option<i64>,
    /// 1 once the file was deleted from the post.
    pub filedeleted: i64,
    /// 1 if the image is spoilered.
    pub spoiler: i64,
    pub custom_spoiler: Option<i64>,
    /// Replies in the thread; opening posts only.
    pub replies: Option<i64>,
    /// Image replies in the thread; opening posts only.
    pub images: Option<i64>,
    /// 1 once the thread no longer bumps.
    pub bumplimit: i64,
    /// 1 once the thread takes no more images.
    pub imagelimit: i64,
    /// Category of a flash upload.
    pub tag: Option<String>,
    /// URL slug of the thread.
    pub semantic_url: Option<String>,
    pub since4pass: Option<i64>,
    /// Distinct posters in the thread; opening posts only.
    pub unique_ips: Option<i64>,
    /// 1 if a mobile-sized image exists.
    pub m_img: i64,
    /// 1 once the thread reached the remote's archive.
    pub archived: i64,
    /// When the thread reached the remote's archive.
    pub archived_on: Option<i64>,
    /// The board the post was archived from.
    pub board: String,
}

/// What identifies and describes the file uploaded with a post.
#[derive(Debug)]
pub struct PostAttachment {
    pub tim: i64,
    pub filename: String,
    pub ext: String,
    pub fsize: i64,
    pub md5: String,
    pub w: i64,
    pub h: i64,
    pub tn_w: i64,
    pub tn_h: i64,
    pub filedeleted: i64,
    pub spoiler: i64,
    pub custom_spoiler: Option<i64>,
}

fn copy_text(text: &Option<String>) -> (copy: Option<String>)
    ensures
        copy == *text,
{
    match text {
        Some(text) => Some(text.clone()),
        None => None,
    }
}

impl Clone for Post {
    fn clone(&self) -> (copy: Self)
        ensures
            copy == *self,
    {
        Post {
            no: self.no,
            resto: self.resto,
            sticky: self.sticky,
            closed: self.closed,
            now: self.now.clone(),
            time: self.time,
            name: self.name.clone(),
            trip: copy_text(&self.trip),
            id: copy_text(&self.id),
            capcode: copy_text(&self.capcode),
            country: copy_text(&self.country),
            country_name: copy_text(&self.country_name),
            board_flag: copy_text(&self.board_flag),
            flag_name: copy_text(&self.flag_name),
            sub: copy_text(&self.sub),
            com: copy_text(&self.com),
            tim: self.tim,
            filename: copy_text(&self.filename),
            ext: copy_text(&self.ext),
            fsize: self.fsize,
            md5: copy_text(&self.md5),
            w: self.w,
            h: self.h,
            tn_w: self.tn_w,
            tn_h: self.tn_h,
            filedeleted: self.filedeleted,
            spoiler: self.spoiler,
            custom_spoiler: self.custom_spoiler,
            replies: self.replies,
            images: self.images,
            bumplimit: self.bumplimit,
            imagelimit: self.imagelimit,
            tag: copy_text(&self.tag),
            semantic_url: copy_text(&self.semantic_url),
            since4pass: self.since4pass,
            unique_ips: self.unique_ips,
            m_img: self.m_img,
            archived: self.archived,
            archived_on: self.archived_on,
            board: self.board.clone(),
        }
    }
}

impl Clone for PostAttachment {
    fn clone(&self) -> (copy: Self)
        ensures
            copy == *self,
    {
        PostAttachment {
            tim: self.tim,
            filename: self.filename.clone(),
            ext: self.ext.clone(),
            fsize: self.fsize,
            md5: self.md5.clone(),
            w: self.w,
            h: self.h,
            tn_w: self.tn_w,
            tn_h: self.tn_h,
            filedeleted: self.filedeleted,
            spoiler: self.spoiler,
            custom_spoiler: self.custom_spoiler,
        }
    }
}

impl Post {
    /// Whether the post is the opening post of its thread.
    pub open spec fn is_opening(&self) -> bool {
        self.resto == 0
    }

    /// Whether every field of the attachment descriptor is present.
    pub open spec fn has_attachment(&self) -> bool {
        &&& self.tim is Some
        &&& self.filename is Some
        &&& self.ext is Some
        &&& self.fsize is Some
        &&& self.md5 is Some
        &&& self.w is Some
        &&& self.h is Some
        &&& self.tn_w is Some
        &&& self.tn_h is Some
    }

    /// The attachment descriptor of the post: present exactly when all nine
    /// descriptor fields are, and then made of them and of the three flags
    /// that every post has.
    pub open spec fn spec_attachment(&self) -> Option<PostAttachment> {
        if self.has_attachment() {
            Some(
                PostAttachment {
                    tim: self.tim->0,
                    filename: self.filename->0,
                    ext: self.ext->0,
                    fsize: self.fsize->0,
                    md5: self.md5->0,
                    w: self.w->0,
                    h: self.h->0,
                    tn_w: self.tn_w->0,
                    tn_h: self.tn_h->0,
                    filedeleted: self.filedeleted,
                    spoiler: self.spoiler,
                    custom_spoiler: self.custom_spoiler,
                },
            )
        } else {
            None
        }
    }

    /// The attachment descriptor, if the post carries a complete one.
    #[must_use]
    pub fn attachment(&self) -> (found: Option<PostAttachment>)
        ensures
            found == self.spec_attachment(),
    {
        match (
            self.tim,
            &self.filename,
            &self.ext,
            self.fsize,
            &self.md5,
            self.w,
            self.h,
            self.tn_w,
            self.tn_h,
        ) {
            (
                Some(tim),
                Some(filename),
                Some(ext),
                Some(fsize),
                Some(md5),
                Some(w),
                Some(h),
                Some(tn_w),
                Some(tn_h),
            ) => Some(
                PostAttachment {
                    tim,
                    filename: filename.clone(),
                    ext: ext.clone(),
                    fsize,
                    md5: md5.clone(),
                    w,
                    h,
                    tn_w,
                    tn_h,
                    filedeleted: self.filedeleted,
                    spoiler: self.spoiler,
                    custom_spoiler: self.custom_spoiler,
                },
            ),
            _ => None,
        }
    }
}

} // verus!
