# media_upload

A small upload server that strips the metadata of uploaded images and
videos and answers with the links under which the files are published.

- `src/` is the verified library: file naming (`io`), settings (`cfg`),
  token check (`validation`), the upload session (`handler`), the EXIF and
  `ffmpeg` stripping jobs (`exif_image`, `exif_ffmpeg`, `server`), the kinds
  of uploads (`metadata`, `exif`) and character helpers (`text`).
- `app/` is the program around it: the actix-web server, file and process
  I/O, and the loops that run the library's jobs.
- `tests/` exercises the library on concrete values.
