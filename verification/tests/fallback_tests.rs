use kisan_ai::fallback::{
    get_fallback_response, get_greeting, get_timeout_message, is_greeting,
};

const GREETING_EN: &str = "Hello! I am KisanAI. How can I help you with your farming today?";
const GREETING_HI: &str = "नमस्ते! मैं किसानAI हूँ। मैं आपकी खेती में कैसे सहायता कर सकता हूँ?";
const GREETING_MR: &str = "नमस्कार! मी किसानAI आहे. मी तुम्हाला शेतीत कशी मदत करू शकतो?";

#[test]
fn every_greeting_phrase_is_a_greeting() {
    for phrase in ["hello", "hi", "hey", "namaste", "namaskar", "ram ram", "sat sri akal", "greetings"] {
        assert!(is_greeting(phrase), "{phrase}");
        assert!(is_greeting(&phrase.to_uppercase()), "{phrase}");
        assert!(is_greeting(&format!("  {phrase}\n")), "{phrase}");
    }
}

#[test]
fn other_texts_are_no_greeting() {
    for text in ["", "hello there", "hi!", "ram  ram", "good morning", "नमस्ते", "h i"] {
        assert!(!is_greeting(text), "{text:?}");
    }
}

#[test]
fn greeting_comes_in_three_languages() {
    assert_eq!(get_greeting("en"), GREETING_EN);
    assert_eq!(get_greeting("hi"), GREETING_HI);
    assert_eq!(get_greeting("mr"), GREETING_MR);
    assert_eq!(get_greeting("fr"), GREETING_EN);
    assert_eq!(get_greeting(""), GREETING_EN);
}

#[test]
fn greeting_wins_over_context() {
    for context in ["", "[Tomato Farming] Tomatoes can be grown year-round."] {
        assert_eq!(get_fallback_response("Hello", context, "en"), GREETING_EN);
        assert_eq!(get_fallback_response(" NAMASTE ", context, "hi"), GREETING_HI);
        assert_eq!(get_fallback_response("ram ram", context, "mr"), GREETING_MR);
        assert_eq!(get_fallback_response("hey", context, "xx"), GREETING_EN);
    }
}

#[test]
fn fallback_without_context_acknowledges_the_query() {
    assert_eq!(
        get_fallback_response("How to grow rice?", "", "en"),
        "I understand you're asking about:\n\nHow to grow rice?\n\nFor more detailed and personalized advice:\n• Contact Kisan Call Center: 1551 (Free, 24x7)\n• Visit your nearest Krishi Vigyan Kendra\n\nI'm currently unable to provide a detailed AI response. Please try again later."
    );
    assert_eq!(
        get_fallback_response("चावल?", "", "hi"),
        "मैं समझता हूं कि आप इसके बारे में पूछ रहे हैं:\n\nचावल?\n\nअधिक विस्तृत जानकारी के लिए:\n• किसान कॉल सेंटर: 1551 (निःशुल्क)\n• अपने नजदीकी कृषि विज्ञान केंद्र पर जाएं\n\nमुझे क्षमा करें, मैं अभी विस्तृत उत्तर देने में असमर्थ हूं। कृपया बाद में प्रयास करें।"
    );
    assert_eq!(
        get_fallback_response("तांदूळ?", "", "mr"),
        "मला समजले की आपण याबद्दल विचारत आहात:\n\nतांदूळ?\n\nअधिक सविस्तर माहितीसाठी:\n• किसान कॉल सेंटर: 1551 (मोफत)\n• आपल्या जवळच्या कृषी विज्ञान केंद्रास भेट द्या\n\nक्षमस्व, मी आता सविस्तर उत्तर देऊ शकत नाही. कृपया नंतर पुन्हा प्रयत्न करा."
    );
}

#[test]
fn fallback_with_context_quotes_it() {
    let context = "[Rice Paddy Cultivation] Rice is the staple Kharif crop.\n\n[Stem Borer in Rice] Yellow stem borer.";
    assert_eq!(
        get_fallback_response("rice", context, "en"),
        format!("Based on available information from our knowledge base:\n\n{context}\n\nFor more detailed and personalized advice:\n• Contact Kisan Call Center: 1551 (Free, 24x7)\n• Visit your nearest Krishi Vigyan Kendra")
    );
    assert_eq!(
        get_fallback_response("rice", context, "hi"),
        format!("हमारे ज्ञान के आधार पर:\n\n{context}\n\nअधिक विस्तृत जानकारी के लिए:\n• किसान कॉल सेंटर: 1551 (निःशुल्क)\n• अपने नजदीकी कृषि विज्ञान केंद्र पर जाएं")
    );
    assert_eq!(
        get_fallback_response("rice", context, "mr"),
        format!("आमच्या माहितीनुसार:\n\n{context}\n\nअधिक सविस्तर माहितीसाठी:\n• किसान कॉल सेंटर: 1551 (मोफत)\n• आपल्या जवळच्या कृषी विज्ञान केंद्रास भेट द्या")
    );
    for lang in ["en", "hi", "mr", "de"] {
        assert!(get_fallback_response("rice", context, lang).contains(context));
    }
}

#[test]
fn timeout_message_comes_in_three_languages() {
    assert_eq!(get_timeout_message("en"), "I apologize, but the response is taking too long. Please try again.");
    assert_eq!(get_timeout_message("hi"), "क्षमा करें, प्रतिक्रिया में बहुत समय लग रहा है। कृपया पुनः प्रयास करें।");
    assert_eq!(get_timeout_message("mr"), "क्षमस्व, प्रतिसादास खूप वेळ लागत आहे. कृपया पुन्हा प्रयत्न करा.");
    assert_eq!(get_timeout_message("ta"), get_timeout_message("en"));
}
