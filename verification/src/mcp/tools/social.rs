use vstd::prelude::*;

verus! {

/// The arguments of the `twitter_post_tweet` tool (post a tweet on Twitter/X).
#[derive(Debug)]
pub struct TwitterPostTweetRequest {
    pub text: String,
    pub reply_to: Option<String>,
}

/// The arguments of the `twitter_get_tweet` tool (get a tweet by ID).
#[derive(Debug)]
pub struct TwitterGetTweetRequest {
    pub tweet_id: String,
}

/// The arguments of the `twitter_search` tool (search for tweets on Twitter/X).
#[derive(Debug)]
pub struct TwitterSearchRequest {
    pub query: String,
    pub max_results: Option<u32>,
}

/// The arguments of the `twitter_get_user` tool (get a Twitter user's profile by username).
#[derive(Debug)]
pub struct TwitterGetUserRequest {
    pub username: String,
}

/// The arguments of the `linkedin_post` tool (create a post on LinkedIn).
#[derive(Debug)]
pub struct LinkedInPostRequest {
    pub text: String,
    pub visibility: Option<String>,
}

/// The arguments of the `linkedin_get_profile` tool (get the authenticated user's LinkedIn profile).
#[derive(Debug)]
pub struct LinkedInGetProfileRequest {}

/// The arguments of the `reddit_get_post` tool (get a Reddit post by ID).
#[derive(Debug)]
pub struct RedditGetPostRequest {
    pub subreddit: String,
    pub post_id: String,
}

/// The arguments of the `reddit_list_posts` tool (list posts from a subreddit).
#[derive(Debug)]
pub struct RedditListPostsRequest {
    pub subreddit: String,
    pub sort: Option<String>,
    pub limit: Option<u32>,
}

/// The arguments of the `reddit_submit_post` tool (submit a new post to a subreddit).
#[derive(Debug)]
pub struct RedditSubmitPostRequest {
    pub subreddit: String,
    pub title: String,
    pub text: Option<String>,
    pub url: Option<String>,
}

/// The arguments of the `youtube_search` tool (search for YouTube videos).
#[derive(Debug)]
pub struct YouTubeSearchRequest {
    pub query: String,
    pub max_results: Option<u32>,
}

/// The arguments of the `youtube_get_video` tool (get details of a YouTube video).
#[derive(Debug)]
pub struct YouTubeGetVideoRequest {
    pub video_id: String,
}

/// The arguments of the `youtube_get_channel` tool (get details of a YouTube channel).
#[derive(Debug)]
pub struct YouTubeGetChannelRequest {
    pub channel_id: String,
}

} // verus!
