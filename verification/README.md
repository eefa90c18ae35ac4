# yuri_web

The verified core of the Wholesome Yuri picture gallery.

- `src/` is the library, checked by Verus:
  - `text`: character comparison, Unicode white space trimming, comma
    separated tag lines, decimal rendering, UTF-8 decoding.
  - `object_id`: post ids as twelve bytes and as twenty-four hex digits.
  - `post`: the stored records (posts, sources, sizes, counters, comments)
    and the request bodies.
  - `upload`: the multipart upload form, field by field, up to the stored
    post.
  - `gallery`: the gallery query (page size, sort keys) and its answer.
  - `feedback`: like, unlike and comment requests.
  - `routes`, `sidebar`: the front end's page and navigation decisions.
- `app/` is the program around it: the actix-web handlers that talk to
  MongoDB and the disk, and the yew front end that draws the pages.
- `tests/` runs the library on concrete values.
